//! Project detection and workspace hygiene for a local developer workspace.
//!
//! Given what was found under a path, the library tells what kind of project
//! lives there, which technologies it uses, how much space its build folders
//! and dependency caches take, and what to report once they were removed.
//!
//! Every function works on plain values: which marker files a project root
//! holds, the text of its manifests, snapshots of its folders, what commands
//! printed. The caller gathers those from the machine and carries out what
//! the library decides; the library itself reads and writes nothing.
//!
//! - [`catalog`]: the kinds of project, the package managers and the markers
//!   that tell them apart.
//! - [`size`]: the size of a directory tree, and how a size is shown.
//! - [`classify`]: project type, package manager, technology stack and icon.
//! - [`registry`]: the build and cache folders of each kind of project.
//! - [`git`]: the source-control summary.
//! - [`scan`]: the descriptor of a project.
//! - [`hygiene`]: the reports on cleaning and on deleting dependency folders.
//! - [`health`], [`tools`], [`launch`], [`tray`]: scripts and dependency
//!   health, tool versions, starting programs, and the quick-access menu.
//! - [`json`], [`text`]: JSON documents and text helpers.

pub mod catalog;
pub mod classify;
pub mod git;
pub mod health;
pub mod hygiene;
pub mod json;
pub mod launch;
pub mod registry;
pub mod scan;
pub mod size;
pub mod text;
pub mod tools;
pub mod tray;
