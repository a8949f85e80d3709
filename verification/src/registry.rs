//! The artifact registry: for each kind of project, the build-output and
//! cache folders that can be removed and made anew.
//!
//! Each kind has one list of cleanable folders, in order of priority. The
//! folder that is shown is the first of the list with bytes in it, the
//! space that a project could give back is the sum over the whole list, and
//! cleaning removes the folders of the list. The list holds what cleaning
//! may remove without loss: virtual environments of Python projects are not
//! among them, and every entry names one folder below the root.
//!
//! Python projects have one more rule: the `__pycache__` folder of every
//! subdirectory of the root is a further cleanable folder. These folders
//! come behind the list, in the order in which the subdirectories were
//! found: they are counted with the list, one of them is shown where the
//! list holds nothing, and cleaning removes them.

use crate::catalog::ProjectType;
use crate::size::{add_sizes, capped, directory_bytes, get_directory_size, FsNode};
use crate::text::names;
use vstd::prelude::*;
use vstd::string::*;

verus! {

/// The cleanable folders of a kind of project, below the root, in order of
/// priority.
pub open spec fn cleanable_folder_names(t: ProjectType) -> Seq<Seq<char>> {
    match t {
        ProjectType::Flutter => seq!["build"@, ".dart_tool"@],
        ProjectType::Android => seq!["app/build"@, "build"@, ".gradle"@],
        ProjectType::Node => seq![
            "dist"@,
            "build"@,
            ".next"@,
            ".nuxt"@,
            "out"@,
            ".output"@,
            ".cache"@,
        ],
        ProjectType::Python => seq![
            "__pycache__"@,
            ".pytest_cache"@,
            "dist"@,
            "build"@,
            ".eggs"@,
        ],
        ProjectType::Rust => seq!["target"@],
        ProjectType::Go => seq!["bin"@],
        ProjectType::Other => seq!["build"@, "dist"@, "out"@],
    }
}

/// The cleanable folders of a kind of project, in order of priority: what
/// is shown, counted and cleaned.
pub fn cleanable_folders(t: ProjectType) -> (r: Vec<&'static str>)
    ensures
        names(r@) == cleanable_folder_names(t),
{
    let r = match t {
        ProjectType::Flutter => vec!["build", ".dart_tool"],
        ProjectType::Android => vec!["app/build", "build", ".gradle"],
        ProjectType::Node => vec!["dist", "build", ".next", ".nuxt", "out", ".output", ".cache"],
        ProjectType::Python => vec!["__pycache__", ".pytest_cache", "dist", "build", ".eggs"],
        ProjectType::Rust => vec!["target"],
        ProjectType::Go => vec!["bin"],
        ProjectType::Other => vec!["build", "dist", "out"],
    };
    assert(names(r@) =~= cleanable_folder_names(t));
    r
}

/// The cache folder that cleaning removes from every subdirectory of the
/// root as well: `__pycache__` for a Python project, none for any other.
pub open spec fn subdirectory_cache_name(t: ProjectType) -> Option<Seq<char>> {
    if t == ProjectType::Python {
        Some("__pycache__"@)
    } else {
        None
    }
}

/// The cache folder to remove from every subdirectory of the root of a
/// project of kind `project_type`, once its cleanable folders are dealt
/// with.
pub fn subdirectory_cache(project_type: ProjectType) -> (r: Option<&'static str>)
    ensures
        match r {
            Some(name) => subdirectory_cache_name(project_type) == Some(name@),
            None => subdirectory_cache_name(project_type) is None,
        },
{
    if project_type == ProjectType::Python {
        Some("__pycache__")
    } else {
        None
    }
}

/// The size of the directory found at the `i`-th folder of a list; zero
/// where nothing was looked at.
pub open spec fn probe_bytes(probes: Seq<FsNode>, i: int) -> nat {
    if 0 <= i < probes.len() {
        directory_bytes(probes[i])
    } else {
        0
    }
}

/// The sizes of the directories found at the first `n` folders of a list,
/// added up.
pub open spec fn probes_total(probes: Seq<FsNode>, n: nat) -> nat
    decreases n,
{
    if n == 0 {
        0
    } else {
        probes_total(probes, (n - 1) as nat) + probe_bytes(probes, n - 1)
    }
}

/// What was found in one subdirectory of a project root.
#[derive(Debug, PartialEq, Eq)]
pub struct Subdirectory {
    /// The name of the subdirectory.
    pub name: String,
    /// What was found in it at the cache folder that `subdirectory_cache`
    /// names.
    pub cache: FsNode,
}

/// The size of the cache folder of the `i`-th subdirectory; zero for a kind
/// of project without cache folders in subdirectories.
pub open spec fn cache_bytes(t: ProjectType, found: Seq<Subdirectory>, i: int) -> nat {
    if subdirectory_cache_name(t) is Some && 0 <= i < found.len() {
        directory_bytes(found[i].cache)
    } else {
        0
    }
}

/// The sizes of the cache folders of the first `n` subdirectories, added up.
pub open spec fn caches_total(t: ProjectType, found: Seq<Subdirectory>, n: nat) -> nat
    decreases n,
{
    if n == 0 {
        0
    } else {
        caches_total(t, found, (n - 1) as nat) + cache_bytes(t, found, n - 1)
    }
}

/// The path of the cache folder of a subdirectory, below the root.
pub open spec fn cache_path(t: ProjectType, subdirectory: Subdirectory) -> Seq<char> {
    match subdirectory_cache_name(t) {
        Some(cache) => subdirectory.name@ + "/"@ + cache,
        None => subdirectory.name@,
    }
}

/// The space that a project could give back by cleaning: what its
/// cleanable folders hold, all of them, and what the cache folders of its
/// subdirectories hold.
pub open spec fn cleanable_bytes(t: ProjectType, probes: Seq<FsNode>, found: Seq<Subdirectory>) -> nat {
    probes_total(probes, cleanable_folder_names(t).len()) + caches_total(t, found, found.len())
}

/// The place of the first of the folders from `from` up to `n` that holds
/// more than zero bytes.
pub open spec fn first_filled(probes: Seq<FsNode>, n: nat, from: nat) -> Option<int>
    decreases n - from,
{
    if from >= n {
        None
    } else if probe_bytes(probes, from as int) > 0 {
        Some(from as int)
    } else {
        first_filled(probes, n, from + 1)
    }
}

/// The place of the first of the subdirectories from `from` on whose cache
/// folder holds more than zero bytes.
pub open spec fn first_filled_cache(t: ProjectType, found: Seq<Subdirectory>, from: nat) -> Option<
    int,
>
    decreases found.len() - from,
{
    if from >= found.len() {
        None
    } else if cache_bytes(t, found, from as int) > 0 {
        Some(from as int)
    } else {
        first_filled_cache(t, found, from + 1)
    }
}

/// The folder that is shown, with the bytes that it holds: the first of
/// the cleanable folders of the kind with bytes in it; where none of them
/// holds any, the first cache folder of a subdirectory that does.
pub open spec fn shown_folder(t: ProjectType, probes: Seq<FsNode>, found: Seq<Subdirectory>) -> Option<
    (Seq<char>, nat),
> {
    match first_filled(probes, cleanable_folder_names(t).len(), 0) {
        Some(i) => Some((cleanable_folder_names(t)[i], probe_bytes(probes, i))),
        None => match first_filled_cache(t, found, 0) {
            Some(j) => Some((cache_path(t, found[j]), cache_bytes(t, found, j))),
            None => None,
        },
    }
}

fn probe_size(probes: &Vec<FsNode>, i: usize) -> (r: u64)
    ensures
        r == capped(probe_bytes(probes@, i as int)),
{
    if i < probes.len() {
        get_directory_size(&probes[i])
    } else {
        0
    }
}

/// Picks the one build folder to show for a project of kind `project_type`:
/// the first cleanable folder that is a directory of more than zero bytes,
/// with its size. `probes` holds what was found at each folder of
/// `cleanable_folders`, in their order; `found` holds the subdirectories of
/// the root with their cache folders, for a kind that has such.
pub fn detect_build_folder(
    project_type: ProjectType,
    probes: &Vec<FsNode>,
    found: &Vec<Subdirectory>,
) -> (r: Option<(String, u64)>)
    ensures
        match r {
            Some((name, size)) => shown_folder(project_type, probes@, found@) matches Some(shown)
                && name@ == shown.0 && size == capped(shown.1),
            None => shown_folder(project_type, probes@, found@) is None,
        },
{
    let folders = cleanable_folders(project_type);
    let n = folders.len();
    let mut i: usize = 0;
    while i < n
        invariant
            i <= n,
            n == folders.len(),
            names(folders@) == cleanable_folder_names(project_type),
            first_filled(probes@, n as nat, 0) == first_filled(probes@, n as nat, i as nat),
        decreases n - i,
    {
        let size = probe_size(probes, i);
        if size > 0 {
            let name = String::from_str(folders[i]);
            assert(name@ == names(folders@)[i as int]);
            return Some((name, size));
        }
        i = i + 1;
    }
    match subdirectory_cache(project_type) {
        Some(cache) => {
            let mut j: usize = 0;
            while j < found.len()
                invariant
                    j <= found.len(),
                    subdirectory_cache_name(project_type) == Some(cache@),
                    first_filled(probes@, cleanable_folder_names(project_type).len(), 0) is None,
                    first_filled_cache(project_type, found@, 0) == first_filled_cache(
                        project_type,
                        found@,
                        j as nat,
                    ),
                decreases found.len() - j,
            {
                let size = get_directory_size(&found[j].cache);
                if size > 0 {
                    let mut name = found[j].name.clone();
                    name.append("/");
                    name.append(cache);
                    return Some((name, size));
                }
                j = j + 1;
            }
            None
        },
        None => {
            assert(first_filled_cache(project_type, found@, 0) is None) by {
                lemma_no_cache_filled(project_type, found@, 0);
            }
            None
        },
    }
}

proof fn lemma_no_cache_filled(t: ProjectType, found: Seq<Subdirectory>, from: nat)
    requires
        subdirectory_cache_name(t) is None,
    ensures
        first_filled_cache(t, found, from) is None,
    decreases found.len() - from,
{
    if from < found.len() {
        lemma_no_cache_filled(t, found, from + 1);
    }
}

proof fn lemma_no_caches_counted(t: ProjectType, found: Seq<Subdirectory>, n: nat)
    requires
        subdirectory_cache_name(t) is None,
    ensures
        caches_total(t, found, n) == 0,
    decreases n,
{
    if n > 0 {
        lemma_no_caches_counted(t, found, (n - 1) as nat);
    }
}

/// The space that a project of kind `project_type` could give back by
/// cleaning: the sizes of all its cleanable folders, added up, not that of
/// the one shown alone. `probes` holds what was found at each folder of
/// `cleanable_folders`, in their order; `found` holds the subdirectories of
/// the root with their cache folders, for a kind that has such.
pub fn get_cleanable_size(
    project_type: ProjectType,
    probes: &Vec<FsNode>,
    found: &Vec<Subdirectory>,
) -> (r: u64)
    ensures
        r == capped(cleanable_bytes(project_type, probes@, found@)),
{
    let folders = cleanable_folders(project_type);
    let mut total: u64 = 0;
    let mut i: usize = 0;
    while i < folders.len()
        invariant
            i <= folders.len(),
            names(folders@) == cleanable_folder_names(project_type),
            total == capped(probes_total(probes@, i as nat)),
        decreases folders.len() - i,
    {
        total = add_sizes(total, probe_size(probes, i));
        i = i + 1;
    }
    if subdirectory_cache(project_type).is_some() {
        let ghost fixed = probes_total(probes@, cleanable_folder_names(project_type).len());
        let mut j: usize = 0;
        while j < found.len()
            invariant
                j <= found.len(),
                subdirectory_cache_name(project_type) is Some,
                total == capped(fixed + caches_total(project_type, found@, j as nat)),
            decreases found.len() - j,
        {
            total = add_sizes(total, get_directory_size(&found[j].cache));
            j = j + 1;
        }
    } else {
        proof {
            lemma_no_caches_counted(project_type, found@, found@.len());
        }
    }
    total
}

/// The folder that is shown is the first with bytes in it: no cleanable
/// folder before it holds any, and a cache folder of a subdirectory is
/// shown only where no cleanable folder of the list holds any.
pub proof fn lemma_first_filled_is_first(probes: Seq<FsNode>, n: nat, from: nat)
    ensures
        match first_filled(probes, n, from) {
            Some(i) => from <= i < n && probe_bytes(probes, i) > 0 && forall|j: int|
                from <= j < i ==> probe_bytes(probes, j) == 0,
            None => forall|j: int| from <= j < n ==> probe_bytes(probes, j) == 0,
        },
    decreases n - from,
{
    if from < n && probe_bytes(probes, from as int) == 0 {
        lemma_first_filled_is_first(probes, n, from + 1);
    }
}

/// What one folder of the list holds is part of what the list holds: the
/// space that a project could give back is never less than the size of the
/// folder that is shown.
pub proof fn lemma_counted_covers_shown(probes: Seq<FsNode>, n: nat, i: int)
    requires
        0 <= i < n,
    ensures
        probe_bytes(probes, i) <= probes_total(probes, n),
    decreases n,
{
    if i < n - 1 {
        lemma_counted_covers_shown(probes, (n - 1) as nat, i);
    }
}

/// Where only one folder of the list holds anything, the space that the
/// project could give back is the size of that folder.
pub proof fn lemma_single_folder_total(probes: Seq<FsNode>, n: nat, i: int)
    requires
        0 <= i < n,
        forall|j: int| 0 <= j < n && j != i ==> probe_bytes(probes, j) == 0,
    ensures
        probes_total(probes, n) == probe_bytes(probes, i),
    decreases n,
{
    if i < n - 1 {
        lemma_single_folder_total(probes, (n - 1) as nat, i);
    } else {
        lemma_nothing_counted(probes, (n - 1) as nat);
    }
}

/// Folders that hold nothing add up to nothing.
pub proof fn lemma_nothing_counted(probes: Seq<FsNode>, n: nat)
    requires
        forall|j: int| 0 <= j < n ==> probe_bytes(probes, j) == 0,
    ensures
        probes_total(probes, n) == 0,
    decreases n,
{
    if n > 0 {
        lemma_nothing_counted(probes, (n - 1) as nat);
    }
}

/// The first subdirectory with a filled cache folder is one of those
/// found, and its cache folder holds more than zero bytes.
pub proof fn lemma_first_filled_cache_is_filled(t: ProjectType, found: Seq<Subdirectory>, from: nat)
    ensures
        match first_filled_cache(t, found, from) {
            Some(j) => from <= j < found.len() && cache_bytes(t, found, j) > 0 && forall|k: int|
                from <= k < j ==> cache_bytes(t, found, k) == 0,
            None => forall|k: int| from <= k < found.len() ==> cache_bytes(t, found, k) == 0,
        },
    decreases found.len() - from,
{
    if from < found.len() && cache_bytes(t, found, from as int) == 0 {
        lemma_first_filled_cache_is_filled(t, found, from + 1);
    }
}

/// What one cache folder holds is part of what all of them hold.
pub proof fn lemma_counted_covers_cache(t: ProjectType, found: Seq<Subdirectory>, n: nat, j: int)
    requires
        0 <= j < n,
    ensures
        cache_bytes(t, found, j) <= caches_total(t, found, n),
    decreases n,
{
    if j < n - 1 {
        lemma_counted_covers_cache(t, found, (n - 1) as nat, j);
    }
}

/// What is shown is part of what is counted: the space that a project
/// could give back is never less than the size of the folder that is
/// shown, whatever the kind of the project.
pub proof fn lemma_shown_is_counted(t: ProjectType, probes: Seq<FsNode>, found: Seq<Subdirectory>)
    ensures
        match shown_folder(t, probes, found) {
            Some(shown) => 0 < shown.1 <= cleanable_bytes(t, probes, found),
            None => cleanable_bytes(t, probes, found) == 0,
        },
{
    let n = cleanable_folder_names(t).len();
    lemma_first_filled_is_first(probes, n, 0);
    lemma_first_filled_cache_is_filled(t, found, 0);
    match first_filled(probes, n, 0) {
        Some(i) => {
            lemma_counted_covers_shown(probes, n, i);
        },
        None => {
            lemma_nothing_counted(probes, n);
            match first_filled_cache(t, found, 0) {
                Some(j) => {
                    lemma_counted_covers_cache(t, found, found.len(), j);
                },
                None => {
                    lemma_no_bytes_in_caches(t, found, found.len());
                },
            }
        },
    }
}

proof fn lemma_no_bytes_in_caches(t: ProjectType, found: Seq<Subdirectory>, n: nat)
    requires
        forall|k: int| 0 <= k < n ==> cache_bytes(t, found, k) == 0,
    ensures
        caches_total(t, found, n) == 0,
    decreases n,
{
    if n > 0 {
        lemma_no_bytes_in_caches(t, found, (n - 1) as nat);
    }
}

} // verus!
