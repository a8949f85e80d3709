//! The scanner: one descriptor of a project from everything that was
//! found under its root.

use crate::catalog::{Markers, PackageManager, ProjectType};
use crate::classify::{
    badges, detect_package_manager, detect_project_type, detect_tech_stack, framework_text,
    get_project_icon, icon_of, manifest_of, package_manager_of, project_type_of, tech_badges,
    text_of, Badge, SourceTexts, TechStack,
};
use crate::git::{get_git_info, git_summary, GitProbe, GitStatus, GitSummary};
use crate::registry::{
    cleanable_bytes, detect_build_folder, get_cleanable_size, shown_folder, Subdirectory,
};
use crate::size::{
    add_sizes, capped, directory_bytes, format_size, get_directory_size, size_text, FsNode,
};
use crate::text::contains_seq;
use vstd::prelude::*;
use vstd::string::*;

verus! {

/// A project as it is listed: a snapshot made by one scan.
#[derive(Debug, Clone, PartialEq, Eq)]
pub struct Project {
    pub id: String,
    pub name: String,
    pub path: String,
    pub icon: String,
    pub tech_stack: Vec<TechStack>,
    pub git_status: GitStatus,
    pub last_active: String,
    pub storage: String,
    pub build_storage: Option<String>,
    pub is_archived: Option<bool>,
    pub has_node_modules: bool,
    pub has_build_folder: bool,
    pub build_folder_name: Option<String>,
    pub package_manager: Option<PackageManager>,
    pub project_type: Option<ProjectType>,
    pub has_git: bool,
}

/// A project as text and plain values.
pub struct ProjectView {
    pub id: Seq<char>,
    pub name: Seq<char>,
    pub path: Seq<char>,
    pub icon: Seq<char>,
    pub tech_stack: Seq<Badge>,
    pub git_status: GitSummary,
    pub last_active: Seq<char>,
    pub storage: Seq<char>,
    pub build_storage: Option<Seq<char>>,
    pub is_archived: Option<bool>,
    pub has_node_modules: bool,
    pub has_build_folder: bool,
    pub build_folder_name: Option<Seq<char>>,
    pub package_manager: Option<PackageManager>,
    pub project_type: Option<ProjectType>,
    pub has_git: bool,
}

impl View for Project {
    type V = ProjectView;

    open spec fn view(&self) -> ProjectView {
        ProjectView {
            id: self.id@,
            name: self.name@,
            path: self.path@,
            icon: self.icon@,
            tech_stack: badges(self.tech_stack@),
            git_status: self.git_status@,
            last_active: self.last_active@,
            storage: self.storage@,
            build_storage: text_of(self.build_storage),
            is_archived: self.is_archived,
            has_node_modules: self.has_node_modules,
            has_build_folder: self.has_build_folder,
            build_folder_name: text_of(self.build_folder_name),
            package_manager: self.package_manager,
            project_type: self.project_type,
            has_git: self.has_git,
        }
    }
}

/// What a scan gives back.
#[derive(Debug, Clone, PartialEq, Eq)]
pub struct ProjectScanResult {
    pub project: Project,
    pub detected: bool,
}

/// Why a path cannot be scanned.
#[derive(Debug, Clone, Copy, PartialEq, Eq, Structural)]
pub enum ScanError {
    /// Nothing exists at the path.
    DoesNotExist,
    /// What exists at the path is no directory.
    NotADirectory,
}

impl ScanError {
    /// The message of the error.
    pub open spec fn message_text(self) -> Seq<char> {
        match self {
            ScanError::DoesNotExist => "Path does not exist"@,
            ScanError::NotADirectory => "Path is not a directory"@,
        }
    }

    /// The message of the error.
    pub fn message(self) -> (r: String)
        ensures
            r@ == self.message_text(),
    {
        match self {
            ScanError::DoesNotExist => String::from_str("Path does not exist"),
            ScanError::NotADirectory => String::from_str("Path is not a directory"),
        }
    }
}

/// The two reasons for which a scan fails have different messages.
pub proof fn lemma_scan_errors_differ()
    ensures
        ScanError::DoesNotExist.message_text() != ScanError::NotADirectory.message_text(),
{
    reveal_strlit("Path does not exist");
    reveal_strlit("Path is not a directory");
    assert(ScanError::DoesNotExist.message_text().len() == 19);
    assert(ScanError::NotADirectory.message_text().len() == 23);
}

/// Everything that a caller found at a path and under it.
#[derive(Debug, PartialEq, Eq)]
pub struct ScanInput {
    /// The path as it was given.
    pub path: String,
    /// Whether anything exists at the path.
    pub exists: bool,
    /// Whether a directory exists at the path.
    pub is_dir: bool,
    /// The markers under the path.
    pub markers: Markers,
    /// The text of the manifests under the path.
    pub texts: SourceTexts,
    /// What git printed there.
    pub git: GitProbe,
    /// What was found at `node_modules`.
    pub node_modules: FsNode,
    /// What was found at each folder of `cleanable_folders` for the kind of
    /// the project, in their order.
    pub cleanable_probes: Vec<FsNode>,
    /// The subdirectories of the root with their cache folders, where the
    /// kind of the project has cache folders in subdirectories.
    pub subdirectories: Vec<Subdirectory>,
}

/// Whether a path can be scanned, and why not.
pub open spec fn path_verdict(exists: bool, is_dir: bool) -> Result<(), ScanError> {
    if !exists {
        Err(ScanError::DoesNotExist)
    } else if !is_dir {
        Err(ScanError::NotADirectory)
    } else {
        Ok(())
    }
}

/// Checks that a path can be scanned: it has to exist and be a directory.
pub fn check_path(exists: bool, is_dir: bool) -> (r: Result<(), ScanError>)
    ensures
        r == path_verdict(exists, is_dir),
{
    if !exists {
        Err(ScanError::DoesNotExist)
    } else if !is_dir {
        Err(ScanError::NotADirectory)
    } else {
        Ok(())
    }
}

/// The build folder that a scan shows, with the bytes that it holds.
pub open spec fn shown_in(input: ScanInput) -> Option<(Seq<char>, nat)> {
    shown_folder(
        project_type_of(input.markers),
        input.cleanable_probes@,
        input.subdirectories@,
    )
}

/// The space that a project could give back: its dependency folder, where
/// it has one, and all its cleanable folders.
pub open spec fn reclaimable_bytes(input: ScanInput) -> nat {
    (if input.markers.node_modules {
        directory_bytes(input.node_modules)
    } else {
        0
    }) + cleanable_bytes(
        project_type_of(input.markers),
        input.cleanable_probes@,
        input.subdirectories@,
    )
}

/// The reclaimable space as it is shown.
pub open spec fn storage_text(input: ScanInput) -> Seq<char> {
    if reclaimable_bytes(input) > 0 {
        size_text(capped(reclaimable_bytes(input)) as nat)
    } else {
        "< 1 MB"@
    }
}

/// Whether `p` describes the project found in `input` under the identifier
/// `id` and the display name `name`.
pub open spec fn describes(p: ProjectView, id: Seq<char>, name: Seq<char>, input: ScanInput) -> bool {
    let m = input.markers;
    let t = project_type_of(m);
    let stack = tech_badges(
        m,
        manifest_of(input.texts.package_json),
        text_of(input.texts.gradle),
        framework_text(input.texts),
    );
    &&& p.id == id
    &&& p.name == name
    &&& p.path == input.path@
    &&& p.icon == icon_of(stack, m)
    &&& p.tech_stack == stack
    &&& p.git_status == git_summary(m.git_dir, input.git)
    &&& p.last_active == "Just added"@
    &&& p.storage == storage_text(input)
    &&& p.is_archived == Some(false)
    &&& p.has_node_modules == m.node_modules
    &&& p.package_manager == package_manager_of(m)
    &&& p.project_type == Some(t)
    &&& p.has_git == m.git_dir
    &&& p.has_build_folder == (shown_in(input) is Some)
    &&& match shown_in(input) {
        Some(shown) => {
            &&& p.build_folder_name == Some(shown.0)
            &&& p.build_storage == Some(size_text(capped(shown.1) as nat))
        },
        None => p.build_folder_name is None && p.build_storage is None,
    }
}

/// The display name of a project: the last segment of its path, where it
/// has one.
pub open spec fn display_name(segment: Option<String>) -> Seq<char> {
    match segment {
        Some(s) => s@,
        None => "Unknown"@,
    }
}

/// Describes the project found in `input`, under the identifier `id`;
/// `segment` is the last segment of the path, where it has one. Fails where
/// the path does not exist or is no directory, and only there.
pub fn describe_project(id: String, segment: Option<String>, input: &ScanInput) -> (r: Result<
    ProjectScanResult,
    ScanError,
>)
    ensures
        match r {
            Ok(found) => {
                &&& path_verdict(input.exists, input.is_dir) is Ok
                &&& found.detected
                &&& describes(found.project@, id@, display_name(segment), *input)
            },
            Err(e) => path_verdict(input.exists, input.is_dir) == Err::<(), ScanError>(e),
        },
{
    match check_path(input.exists, input.is_dir) {
        Err(e) => {
            return Err(e);
        },
        Ok(_) => {},
    }
    let markers = &input.markers;
    let tech_stack = detect_tech_stack(markers, &input.texts);
    let git_status = get_git_info(markers.git_dir, &input.git);
    let has_node_modules = markers.node_modules;
    let package_manager = detect_package_manager(markers);
    let project_type = detect_project_type(markers);
    let has_git = markers.git_dir;

    let (has_build_folder, build_folder_name, build_storage) = match detect_build_folder(
        project_type,
        &input.cleanable_probes,
        &input.subdirectories,
    ) {
        Some((folder, size)) => (true, Some(folder), Some(format_size(size))),
        None => (false, None, None),
    };

    let mut total: u64 = 0;
    if has_node_modules {
        total = get_directory_size(&input.node_modules);
    }
    total = add_sizes(
        total,
        get_cleanable_size(project_type, &input.cleanable_probes, &input.subdirectories),
    );
    assert(total == capped(reclaimable_bytes(*input)));
    let storage = if total > 0 {
        format_size(total)
    } else {
        String::from_str("< 1 MB")
    };

    let name = match segment {
        Some(s) => s,
        None => String::from_str("Unknown"),
    };
    let icon = get_project_icon(&tech_stack, markers);

    let project = Project {
        id,
        name,
        path: input.path.clone(),
        icon,
        tech_stack,
        git_status,
        last_active: String::from_str("Just added"),
        storage,
        build_storage,
        is_archived: Some(false),
        has_node_modules,
        has_build_folder,
        build_folder_name,
        package_manager,
        project_type: Some(project_type),
        has_git,
    };
    Ok(ProjectScanResult { project, detected: true })
}

/// `uuid::Uuid::new_v4` of the uuid crate, shown by its `Display`: a fresh
/// random identifier in hyphenated form, which is 36 characters long. Which
/// identifier comes back is left open. The crate panics where the operating
/// system gives it no random bytes.
#[verifier::external_body]
fn fresh_id() -> (r: String)
    ensures
        r@.len() == 36,
{
    uuid::Uuid::new_v4().to_string()
}

/// `std::path::Path::file_name` of std, as text: the final component of
/// `path`, where it has one. A component is a piece of the path and is
/// never empty; which piece is the final one depends on what the platform
/// takes for a separator, so no more is claimed.
#[verifier::external_body]
fn last_segment(path: &str) -> (r: Option<String>)
    ensures
        match r {
            Some(segment) => segment@.len() > 0 && contains_seq(path@, segment@),
            None => true,
        },
{
    std::path::Path::new(path).file_name().and_then(|n| n.to_str()).map(String::from)
}

/// Whether `name` can be the display name of the project at `path`: a piece
/// of the path that is not empty, or `Unknown`.
pub open spec fn named_after(name: Seq<char>, path: Seq<char>) -> bool {
    name == "Unknown"@ || (name.len() > 0 && contains_seq(path, name))
}

/// Scans a project: classifies it, sums up what it could give back, and
/// assembles its descriptor under a fresh identifier and the name of the
/// last segment of its path. Fails where the path does not exist or is no
/// directory, and only there. Nothing is written or removed.
pub fn scan_project(input: &ScanInput) -> (r: Result<ProjectScanResult, ScanError>)
    ensures
        match r {
            Ok(found) => {
                &&& path_verdict(input.exists, input.is_dir) is Ok
                &&& found.detected
                &&& found.project.id@.len() == 36
                &&& named_after(found.project.name@, input.path@)
                &&& describes(found.project@, found.project.id@, found.project.name@, *input)
            },
            Err(e) => path_verdict(input.exists, input.is_dir) == Err::<(), ScanError>(e),
        },
{
    let id = fresh_id();
    let segment = last_segment(input.path.as_str());
    describe_project(id, segment, input)
}

} // verus!
