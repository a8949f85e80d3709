//! The hygiene operations: what to report once dependency and build folders
//! have been removed, or not.

use crate::catalog::{Markers, ProjectType};
use crate::classify::{detect_project_type, project_type_of};
use crate::registry::{cleanable_folder_names, cleanable_folders, subdirectory_cache_name};
use crate::size::{
    add_sizes, capped, directory_bytes, format_size, get_directory_size, size_text, FsNode,
};
use crate::text::{decimal, decimal_string, join_texts, joined, names, texts};
use vstd::prelude::*;
use vstd::string::*;

verus! {

/// What became of one folder that was to be removed.
#[derive(Debug, Clone, PartialEq, Eq)]
pub enum Removal {
    /// No such folder was found, and nothing was tried.
    Skipped,
    /// The folder was removed; it held `freed` bytes before.
    Removed { freed: u64 },
    /// The folder could not be removed; `error` says why.
    Failed { error: String },
}

/// What became of one folder that was to be removed without being
/// measured.
#[derive(Debug, Clone, PartialEq, Eq)]
pub enum Deletion {
    /// No such folder was found, and nothing was tried.
    Absent,
    /// The folder was removed.
    Done,
    /// The folder could not be removed; `error` says why.
    Failed { error: String },
}

/// The kind of project to clean: the kind that the tag names, where one is
/// given; else the kind that the markers show.
pub fn resolve_project_type(given: Option<&str>, markers: &Markers) -> (r: ProjectType)
    ensures
        r == match given {
            Some(tag) => ProjectType::labelled(tag@),
            None => project_type_of(*markers),
        },
{
    match given {
        Some(tag) => ProjectType::from_name(tag),
        None => detect_project_type(markers),
    }
}

/// What became of the `i`-th folder of a list; a folder of which nothing
/// is told was skipped.
pub open spec fn outcome_at(outcomes: Seq<Removal>, i: int) -> Removal {
    if 0 <= i < outcomes.len() {
        outcomes[i]
    } else {
        Removal::Skipped
    }
}

/// How many of the first `n` folders were removed.
pub open spec fn removed_among(outcomes: Seq<Removal>, n: nat) -> nat
    decreases n,
{
    if n == 0 {
        0
    } else {
        removed_among(outcomes, (n - 1) as nat) + if outcome_at(outcomes, n - 1) is Removed {
            1nat
        } else {
            0nat
        }
    }
}

/// The bytes that the removed ones among the first `n` folders held.
pub open spec fn freed_among(outcomes: Seq<Removal>, n: nat) -> nat
    decreases n,
{
    if n == 0 {
        0
    } else {
        freed_among(outcomes, (n - 1) as nat) + match outcome_at(outcomes, n - 1) {
            Removal::Removed { freed } => freed as nat,
            _ => 0nat,
        }
    }
}

/// The complaints about the first `n` folders, in their order: for each
/// folder that could not be removed its name, a colon and the error.
pub open spec fn errors_among(folders: Seq<Seq<char>>, outcomes: Seq<Removal>, n: nat) -> Seq<
    Seq<char>,
>
    decreases n,
{
    if n == 0 {
        Seq::empty()
    } else {
        let before = errors_among(folders, outcomes, (n - 1) as nat);
        match outcome_at(outcomes, n - 1) {
            Removal::Failed { error } => before.push(folders[n - 1] + ": "@ + error@),
            _ => before,
        }
    }
}

/// How many of the first `n` cache folders of subdirectories were removed.
pub open spec fn done_among(caches: Seq<Deletion>, n: nat) -> nat
    decreases n,
{
    if n == 0 {
        0
    } else {
        done_among(caches, (n - 1) as nat) + if n <= caches.len() && caches[n - 1] is Done {
            1nat
        } else {
            0nat
        }
    }
}

/// The folders that count as cleaned: the removed ones among the cleanable
/// folders of the kind and, where the kind has a cache folder in
/// subdirectories, the removed ones among those.
pub open spec fn cleaned_count(t: ProjectType, outcomes: Seq<Removal>, caches: Seq<Deletion>) -> nat {
    removed_among(outcomes, cleanable_folder_names(t).len()) + if subdirectory_cache_name(t)
        is Some {
        done_among(caches, caches.len())
    } else {
        0
    }
}

/// What cleaning reports. With at least one folder cleaned it succeeds,
/// tells how many and how much, and adds the complaints, if any. The bytes
/// and the complaints are those of the cleanable folders of the list; the
/// cache folders of subdirectories are removed without being measured and
/// count where they were removed. With none
/// cleaned it fails on the complaints, and without any it succeeds with
/// nothing to clean.
pub open spec fn clean_report(t: ProjectType, outcomes: Seq<Removal>, caches: Seq<Deletion>) -> Result<
    Seq<char>,
    Seq<char>,
> {
    let n = cleanable_folder_names(t).len();
    let cleaned = cleaned_count(t, outcomes, caches);
    let errors = errors_among(cleanable_folder_names(t), outcomes, n);
    let freed = size_text(capped(freed_among(outcomes, n)) as nat);
    if cleaned > 0 {
        if errors.len() == 0 {
            Ok("Cleaned "@ + decimal(cleaned) + " folder(s), freed "@ + freed)
        } else {
            Ok(
                "Cleaned "@ + decimal(cleaned) + " folder(s), freed "@ + freed + ". Errors: "@
                    + joined(errors, ", "@),
            )
        }
    } else if errors.len() > 0 {
        Err("Failed to clean: "@ + joined(errors, ", "@))
    } else {
        Ok("No build folders to clean"@)
    }
}

fn count_removed(outcomes: &Vec<Removal>, n: usize) -> (r: usize)
    ensures
        r == removed_among(outcomes@, n as nat),
        r <= n,
{
    let mut count: usize = 0;
    let mut i: usize = 0;
    while i < n
        invariant
            i <= n,
            count <= i,
            count == removed_among(outcomes@, i as nat),
        decreases n - i,
    {
        if i < outcomes.len() {
            match &outcomes[i] {
                Removal::Removed { .. } => {
                    count = count + 1;
                },
                _ => {},
            }
        }
        i = i + 1;
    }
    count
}

fn count_done(caches: &Vec<Deletion>) -> (r: usize)
    ensures
        r == done_among(caches@, caches@.len()),
        r <= caches@.len(),
{
    let mut count: usize = 0;
    let mut i: usize = 0;
    while i < caches.len()
        invariant
            i <= caches.len(),
            count <= i,
            count == done_among(caches@, i as nat),
        decreases caches.len() - i,
    {
        match &caches[i] {
            Deletion::Done => {
                count = count + 1;
            },
            _ => {},
        }
        i = i + 1;
    }
    count
}

/// Reports on the cleaning of a project of kind `project_type`. `outcomes`
/// tells what became of each folder of `cleanable_folders`, in their order;
/// `cache_outcomes` what became of the cache folder of each subdirectory of
/// the root, which count where the kind has such a rule, and only where
/// they were removed.
pub fn clean_build_folder(
    project_type: ProjectType,
    outcomes: &Vec<Removal>,
    cache_outcomes: &Vec<Deletion>,
) -> (r: Result<String, String>)
    ensures
        match r {
            Ok(message) => clean_report(project_type, outcomes@, cache_outcomes@) == Ok::<
                Seq<char>,
                Seq<char>,
            >(message@),
            Err(message) => clean_report(project_type, outcomes@, cache_outcomes@) == Err::<
                Seq<char>,
                Seq<char>,
            >(message@),
        },
{
    let folders = cleanable_folders(project_type);
    let n = folders.len();
    let mut total_freed: u64 = 0;
    let mut errors: Vec<String> = Vec::new();
    let mut i: usize = 0;
    assert(texts(errors@) =~= Seq::<Seq<char>>::empty());
    while i < n
        invariant
            i <= n,
            n == folders.len(),
            names(folders@) == cleanable_folder_names(project_type),
            total_freed == capped(freed_among(outcomes@, i as nat)),
            texts(errors@) == errors_among(cleanable_folder_names(project_type), outcomes@, i as nat),
        decreases n - i,
    {
        if i < outcomes.len() {
            match &outcomes[i] {
                Removal::Removed { freed } => {
                    total_freed = add_sizes(total_freed, *freed);
                },
                Removal::Failed { error } => {
                    let mut line = String::from_str(folders[i]);
                    line.append(": ");
                    line.append(error.as_str());
                    assert(line@ == names(folders@)[i as int] + ": "@ + error@);
                    let ghost before = texts(errors@);
                    errors.push(line);
                    assert(texts(errors@) =~= before.push(line@));
                },
                Removal::Skipped => {},
            }
        }
        i = i + 1;
    }
    let removed = count_removed(outcomes, n);
    let caches: usize = if project_type == ProjectType::Python {
        count_done(cache_outcomes)
    } else {
        0
    };
    let cleaned: u128 = removed as u128 + caches as u128;
    assert(cleaned == cleaned_count(project_type, outcomes@, cache_outcomes@));
    if cleaned > 0 {
        let mut message = String::from_str("Cleaned ");
        message.append(decimal_string(cleaned).as_str());
        message.append(" folder(s), freed ");
        message.append(format_size(total_freed).as_str());
        if errors.len() > 0 {
            message.append(". Errors: ");
            message.append(join_texts(&errors, ", ").as_str());
        }
        Ok(message)
    } else if errors.len() > 0 {
        let mut message = String::from_str("Failed to clean: ");
        message.append(join_texts(&errors, ", ").as_str());
        Err(message)
    } else {
        Ok(String::from_str("No build folders to clean"))
    }
}

/// Cleaning a Rust project whose `target` folder was removed reports one
/// folder and the bytes that the folder held; cleaning it again, with the
/// folder gone, reports that there is nothing to clean.
pub proof fn lemma_clean_rust_target(freed: u64, caches: Seq<Deletion>)
    ensures
        clean_report(ProjectType::Rust, seq![Removal::Removed { freed }], caches) == Ok::<
            Seq<char>,
            Seq<char>,
        >("Cleaned "@ + decimal(1) + " folder(s), freed "@ + size_text(freed as nat)),
        clean_report(ProjectType::Rust, seq![Removal::Skipped], caches) == Ok::<
            Seq<char>,
            Seq<char>,
        >("No build folders to clean"@),
{
    let gone = seq![Removal::Removed { freed }];
    let kept = seq![Removal::Skipped];
    let targets = cleanable_folder_names(ProjectType::Rust);
    assert(targets.len() == 1);
    reveal_with_fuel(removed_among, 2);
    reveal_with_fuel(freed_among, 2);
    reveal_with_fuel(errors_among, 2);
    assert(removed_among(gone, 1) == 1);
    assert(freed_among(gone, 1) == freed);
    assert(errors_among(targets, gone, 1) =~= Seq::<Seq<char>>::empty());
    assert(removed_among(kept, 1) == 0);
    assert(errors_among(targets, kept, 1) =~= Seq::<Seq<char>>::empty());
}

/// What removing the dependency folder of one project reports. A folder
/// that does not exist is an error here.
pub open spec fn delete_report(outcome: Deletion) -> Result<Seq<char>, Seq<char>> {
    match outcome {
        Deletion::Absent => Err("node_modules directory does not exist"@),
        Deletion::Failed { error } => Err("Failed to delete node_modules: "@ + error@),
        Deletion::Done => Ok("node_modules deleted successfully"@),
    }
}

/// Reports on the removal of the dependency folder of one project.
pub fn delete_node_modules(outcome: &Deletion) -> (r: Result<String, String>)
    ensures
        match r {
            Ok(message) => delete_report(*outcome) == Ok::<Seq<char>, Seq<char>>(message@),
            Err(message) => delete_report(*outcome) == Err::<Seq<char>, Seq<char>>(message@),
        },
{
    match outcome {
        Deletion::Absent => Err(String::from_str("node_modules directory does not exist")),
        Deletion::Failed { error } => {
            let mut message = String::from_str("Failed to delete node_modules: ");
            message.append(error.as_str());
            Err(message)
        },
        Deletion::Done => Ok(String::from_str("node_modules deleted successfully")),
    }
}

/// One project of a batch, and what became of its dependency folder.
#[derive(Debug, Clone, PartialEq, Eq)]
pub struct DeleteAttempt {
    pub path: String,
    pub outcome: Removal,
}

/// The outcome of a hygiene operation for one target.
#[derive(Debug, Clone, PartialEq, Eq)]
pub struct HygieneResult {
    /// The target: the path of the project.
    pub path: String,
    pub success: bool,
    /// The bytes given back, where the operation succeeded.
    pub freed_bytes: u64,
    /// Why the operation failed, where it did.
    pub error: Option<String>,
}

/// An outcome as text and plain values.
pub struct HygieneView {
    pub path: Seq<char>,
    pub success: bool,
    pub freed_bytes: u64,
    pub error: Option<Seq<char>>,
}

impl View for HygieneResult {
    type V = HygieneView;

    open spec fn view(&self) -> HygieneView {
        HygieneView {
            path: self.path@,
            success: self.success,
            freed_bytes: self.freed_bytes,
            error: match self.error {
                Some(e) => Some(e@),
                None => None,
            },
        }
    }
}

/// The outcomes of a batch as text and plain values, in order.
pub open spec fn outcomes_view(results: Seq<HygieneResult>) -> Seq<HygieneView> {
    Seq::new(results.len(), |i: int| results[i]@)
}

/// The report on one project of a batch; none for a project without a
/// dependency folder.
pub open spec fn attempt_report(attempt: DeleteAttempt) -> Option<HygieneView> {
    match attempt.outcome {
        Removal::Skipped => None,
        Removal::Removed { freed } => Some(
            HygieneView { path: attempt.path@, success: true, freed_bytes: freed, error: None },
        ),
        Removal::Failed { error } => Some(
            HygieneView { path: attempt.path@, success: false, freed_bytes: 0, error: Some(error@) },
        ),
    }
}

/// The reports on a batch: one for each project that had a dependency
/// folder, in the order of the batch. A project without one is passed over
/// in silence.
pub open spec fn batch_report(attempts: Seq<DeleteAttempt>) -> Seq<HygieneView>
    decreases attempts.len(),
{
    if attempts.len() == 0 {
        Seq::empty()
    } else {
        let before = batch_report(attempts.drop_last());
        match attempt_report(attempts.last()) {
            Some(report) => before.push(report),
            None => before,
        }
    }
}

/// Reports on the removal of the dependency folders of a batch of projects.
/// Every project is reported on by itself and a failure stops nothing.
pub fn bulk_delete_node_modules(attempts: &Vec<DeleteAttempt>) -> (r: Vec<HygieneResult>)
    ensures
        outcomes_view(r@) == batch_report(attempts@),
        r@.len() <= attempts@.len(),
{
    let mut results: Vec<HygieneResult> = Vec::new();
    let mut i: usize = 0;
    assert(outcomes_view(results@) =~= batch_report(attempts@.take(0)));
    while i < attempts.len()
        invariant
            i <= attempts.len(),
            results@.len() <= i,
            outcomes_view(results@) == batch_report(attempts@.take(i as int)),
        decreases attempts.len() - i,
    {
        assert(attempts@.take(i + 1).drop_last() =~= attempts@.take(i as int));
        let ghost before = outcomes_view(results@);
        let attempt = &attempts[i];
        match &attempt.outcome {
            Removal::Skipped => {},
            Removal::Removed { freed } => {
                let report = HygieneResult {
                    path: attempt.path.clone(),
                    success: true,
                    freed_bytes: *freed,
                    error: None,
                };
                results.push(report);
                assert(outcomes_view(results@) =~= before.push(report@));
            },
            Removal::Failed { error } => {
                let report = HygieneResult {
                    path: attempt.path.clone(),
                    success: false,
                    freed_bytes: 0,
                    error: Some(error.clone()),
                };
                results.push(report);
                assert(outcomes_view(results@) =~= before.push(report@));
            },
        }
        i = i + 1;
    }
    assert(attempts@.take(i as int) =~= attempts@);
    results
}

impl HygieneResult {
    /// The outcome as one line: a check mark and the path, or a cross, the
    /// path, a colon and the error.
    pub open spec fn line_text(self) -> Seq<char> {
        if self.success {
            "✓ "@ + self.path@
        } else {
            "✗ "@ + self.path@ + ": "@ + match self.error {
                Some(e) => e@,
                None => Seq::empty(),
            }
        }
    }

    /// The outcome as one line of a report.
    pub fn line(&self) -> (r: String)
        ensures
            r@ == self.line_text(),
    {
        if self.success {
            let mut text = String::from_str("✓ ");
            text.append(self.path.as_str());
            text
        } else {
            let mut text = String::from_str("✗ ");
            text.append(self.path.as_str());
            text.append(": ");
            if let Some(e) = &self.error {
                text.append(e.as_str());
            }
            assert(text@ =~= self.line_text());
            text
        }
    }
}

/// Every project of a batch is reported on by itself: the report on two
/// batches, one after the other, is the report on the first followed by
/// the report on the second, whatever failed in either.
pub proof fn lemma_batch_report_by_parts(first: Seq<DeleteAttempt>, second: Seq<DeleteAttempt>)
    ensures
        batch_report(first + second) == batch_report(first) + batch_report(second),
    decreases second.len(),
{
    if second.len() == 0 {
        assert(first + second =~= first);
        assert(batch_report(first) + batch_report(second) =~= batch_report(first));
    } else {
        lemma_batch_report_by_parts(first, second.drop_last());
        assert((first + second).drop_last() =~= first + second.drop_last());
        assert((first + second).last() == second.last());
        match attempt_report(second.last()) {
            Some(report) => {
                assert(batch_report(first + second) =~= batch_report(first) + batch_report(
                    second,
                ));
            },
            None => {},
        }
    }
}

/// A project without a dependency folder is passed over by the batch
/// operation and is an error for the single one.
pub proof fn lemma_absent_folder_asymmetry(attempts: Seq<DeleteAttempt>, extra: DeleteAttempt)
    requires
        extra.outcome is Skipped,
    ensures
        batch_report(attempts.push(extra)) == batch_report(attempts),
        delete_report(Deletion::Absent) is Err,
{
    assert(attempts.push(extra).drop_last() =~= attempts);
}

/// The size of the dependency folder of a project as it is shown: `0 B`
/// without the folder.
pub fn get_node_modules_size(node: &FsNode) -> (r: String)
    ensures
        r@ == size_text(capped(directory_bytes(*node)) as nat),
{
    format_size(get_directory_size(node))
}

} // verus!
