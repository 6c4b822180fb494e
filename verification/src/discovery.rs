use vstd::prelude::*;

use crate::herb_config::HerbConfig;
use crate::pattern_list::contains_pattern;

verus! {

// ----------------------------------------------------------------------------
// Configuration discovery.
//
// Discovery walks upward from a starting directory towards the filesystem
// root, looking in each directory for the configuration file, and — for
// project-root discovery — for a set of project-indicator entries.  The walk
// itself only reads directory contents; the decision which directory wins is
// pure logic over those contents.  The caller hands that logic the chain of
// directories from the starting directory up to the root, each with its
// entries, innermost first.
// ----------------------------------------------------------------------------

/// One directory of the upward walk: its path and the names of the entries
/// it holds.
#[derive(Debug)]
pub struct DirListing {
    pub path: String,
    pub entries: Vec<String>,
}

/// The mathematical content of a `DirListing`.
pub struct DirListingView {
    pub path: Seq<char>,
    pub entries: Seq<Seq<char>>,
}

impl View for DirListing {
    type V = DirListingView;

    open spec fn view(&self) -> DirListingView {
        DirListingView { path: self.path@, entries: self.entries.deep_view() }
    }
}

impl DeepView for DirListing {
    type V = DirListingView;

    open spec fn deep_view(&self) -> DirListingView {
        self.view()
    }
}

/// The fixed name of the configuration file.
pub open spec fn spec_config_file_name() -> Seq<char> {
    ".herb.yml"@
}

/// The fixed name of the configuration file.
pub fn config_file_name() -> (r: &'static str)
    ensures
        r@ == spec_config_file_name(),
{
    ".herb.yml"
}

/// The entry names that mark a directory as a project root: the
/// version-control directory, the tool's own directory, dependency
/// manifests, and common project markers.
pub open spec fn spec_project_indicators() -> Seq<Seq<char>> {
    seq![".git"@, ".herb"@, "Gemfile"@, "package.json"@, "Rakefile"@, "README.md"@]
}

/// The entry names that mark a directory as a project root.
pub fn project_indicators() -> (r: Vec<String>)
    ensures
        r.deep_view() == spec_project_indicators(),
{
    let mut v: Vec<String> = Vec::new();
    v.push(".git".to_owned());
    v.push(".herb".to_owned());
    v.push("Gemfile".to_owned());
    v.push("package.json".to_owned());
    v.push("Rakefile".to_owned());
    v.push("README.md".to_owned());
    proof {
        assert(v.deep_view() =~= spec_project_indicators());
    }
    v
}

/// Whether the directory holds the configuration file.
pub open spec fn dir_has_config(d: DirListingView) -> bool {
    d.entries.contains(spec_config_file_name())
}

/// Whether the directory holds any project indicator.
pub open spec fn dir_has_indicator(d: DirListingView) -> bool {
    exists|i: int|
        0 <= i < d.entries.len() && spec_project_indicators().contains(d.entries[i])
}

/// The path of `name` inside the directory `dir`: the two joined with a
/// separator, unless `dir` is empty or already ends with one.
pub open spec fn spec_join_path(dir: Seq<char>, name: Seq<char>) -> Seq<char> {
    if dir.len() == 0 || dir[dir.len() - 1] == '/' {
        dir + name
    } else {
        dir + "/"@ + name
    }
}

/// The configuration-file path of the first directory of the chain that
/// holds the configuration file, if any does.
pub open spec fn spec_find_config_file(dirs: Seq<DirListingView>) -> Option<Seq<char>>
    decreases dirs.len(),
{
    if dirs.len() == 0 {
        None
    } else if dir_has_config(dirs[0]) {
        Some(spec_join_path(dirs[0].path, spec_config_file_name()))
    } else {
        spec_find_config_file(dirs.skip(1))
    }
}

/// The first directory of the chain that holds the configuration file or any
/// project indicator; `start` where none does.
pub open spec fn spec_find_project_root(dirs: Seq<DirListingView>, start: Seq<char>) -> Seq<char>
    decreases dirs.len(),
{
    if dirs.len() == 0 {
        start
    } else if dir_has_config(dirs[0]) || dir_has_indicator(dirs[0]) {
        dirs[0].path
    } else {
        spec_find_project_root(dirs.skip(1), start)
    }
}

/// Joins `name` onto the directory path `dir` with a `/` separator (none
/// where `dir` is empty or already ends with one).
pub fn join_path(dir: &String, name: &str) -> (r: String)
    ensures
        r@ == spec_join_path(dir@, name@),
{
    let mut r = String::new();
    r.append(dir.as_str());
    let n = dir.as_str().unicode_len();
    if n == 0 || dir.as_str().get_char(n - 1) == '/' {
        r.append(name);
        proof {
            assert(r@ =~= spec_join_path(dir@, name@));
        }
    } else {
        r.append("/");
        r.append(name);
        proof {
            assert(r@ =~= spec_join_path(dir@, name@));
        }
    }
    r
}

/// Whether any entry of `entries` is one of `names`.
fn contains_any_of(entries: &Vec<String>, names: &Vec<String>) -> (r: bool)
    ensures
        r == exists|i: int|
            0 <= i < entries.deep_view().len() && names.deep_view().contains(
                entries.deep_view()[i],
            ),
{
    let mut i: usize = 0;
    while i < entries.len()
        invariant
            i <= entries@.len(),
            forall|k: int|
                0 <= k < i ==> !names.deep_view().contains(entries.deep_view()[k]),
        decreases entries@.len() - i,
    {
        if contains_pattern(names, &entries[i]) {
            assert(names.deep_view().contains(entries.deep_view()[i as int]));
            return true;
        }
        i = i + 1;
    }
    false
}

impl HerbConfig {
    /// Searches the chain of directories, innermost first, for the first one
    /// that holds the configuration file, and returns that file's path; none
    /// when the chain is exhausted.
    pub fn find_config_file(dirs: &Vec<DirListing>) -> (r: Option<String>)
        ensures
            match r {
                Some(p) => spec_find_config_file(dirs.deep_view()) == Some(p@),
                None => spec_find_config_file(dirs.deep_view()) is None,
            },
    {
        let ghost dv = dirs.deep_view();
        let name: String = config_file_name().to_owned();
        let mut i: usize = 0;
        proof {
            assert(dv.skip(0) =~= dv);
        }
        while i < dirs.len()
            invariant
                i <= dirs@.len(),
                dv == dirs.deep_view(),
                dv.len() == dirs@.len(),
                name@ == spec_config_file_name(),
                spec_find_config_file(dv) == spec_find_config_file(dv.skip(i as int)),
            decreases dirs@.len() - i,
        {
            proof {
                assert(dv.skip(i as int)[0] == dv[i as int]);
                assert(dv.skip(i as int).skip(1) =~= dv.skip(i + 1 as int));
            }
            if contains_pattern(&dirs[i].entries, &name) {
                assert(dir_has_config(dv[i as int]));
                return Some(join_path(&dirs[i].path, config_file_name()));
            }
            assert(!dir_has_config(dv[i as int]));
            i = i + 1;
        }
        proof {
            assert(dv.skip(dv.len() as int) =~= Seq::<DirListingView>::empty());
        }
        None
    }

    /// Searches the chain of directories, innermost first, for the first one
    /// that holds the configuration file or any project indicator, and
    /// returns its path; the starting directory `start_dir` where none does.
    /// Discovery of a project root never fails.
    pub fn find_project_root(dirs: &Vec<DirListing>, start_dir: &String) -> (r: String)
        ensures
            r@ == spec_find_project_root(dirs.deep_view(), start_dir@),
    {
        let ghost dv = dirs.deep_view();
        let name: String = config_file_name().to_owned();
        let indicators = project_indicators();
        let mut i: usize = 0;
        proof {
            assert(dv.skip(0) =~= dv);
        }
        while i < dirs.len()
            invariant
                i <= dirs@.len(),
                dv == dirs.deep_view(),
                dv.len() == dirs@.len(),
                name@ == spec_config_file_name(),
                indicators.deep_view() == spec_project_indicators(),
                spec_find_project_root(dv, start_dir@) == spec_find_project_root(
                    dv.skip(i as int),
                    start_dir@,
                ),
            decreases dirs@.len() - i,
        {
            proof {
                assert(dv.skip(i as int)[0] == dv[i as int]);
                assert(dv.skip(i as int).skip(1) =~= dv.skip(i + 1 as int));
            }
            if contains_pattern(&dirs[i].entries, &name) || contains_any_of(
                &dirs[i].entries,
                &indicators,
            ) {
                assert(dir_has_config(dv[i as int]) || dir_has_indicator(dv[i as int]));
                return dirs[i].path.clone();
            }
            i = i + 1;
        }
        proof {
            assert(dv.skip(dv.len() as int) =~= Seq::<DirListingView>::empty());
        }
        start_dir.clone()
    }
}

} // verus!
