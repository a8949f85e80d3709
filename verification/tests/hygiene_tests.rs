use devlaunch::catalog::{Marker, Markers, ProjectType};
use devlaunch::hygiene::{
    bulk_delete_node_modules, clean_build_folder, delete_node_modules, get_node_modules_size,
    resolve_project_type, DeleteAttempt, Deletion, HygieneResult, Removal,
};
use devlaunch::size::{format_size, get_directory_size, FsNode};

fn failed(error: &str) -> Removal {
    Removal::Failed { error: error.to_string() }
}

fn attempt(path: &str, outcome: Removal) -> DeleteAttempt {
    DeleteAttempt { path: path.to_string(), outcome }
}

#[test]
fn cleaning_a_rust_project_frees_its_target() {
    let target = FsNode::Dir {
        entries: vec![FsNode::File { len: 2048 }, FsNode::Dir { entries: vec![FsNode::File { len: 1024 }] }],
    };
    let size = get_directory_size(&target);
    let first = clean_build_folder(ProjectType::Rust, &vec![Removal::Removed { freed: size }], &vec![]);
    assert_eq!(first, Ok(format!("Cleaned 1 folder(s), freed {}", format_size(size))));
    assert_eq!(first, Ok("Cleaned 1 folder(s), freed 3 KB".to_string()));
    let second = clean_build_folder(ProjectType::Rust, &vec![Removal::Skipped], &vec![]);
    assert_eq!(second, Ok("No build folders to clean".to_string()));
}

#[test]
fn cleaning_nothing_succeeds_with_nothing_to_clean() {
    assert_eq!(
        clean_build_folder(ProjectType::Node, &vec![], &vec![]),
        Ok("No build folders to clean".to_string())
    );
}

#[test]
fn cleaning_goes_on_after_a_failure() {
    let outcomes = vec![
        Removal::Removed { freed: 1048576 },
        failed("permission denied"),
        Removal::Skipped,
        Removal::Removed { freed: 1048576 },
        Removal::Skipped,
        failed("busy"),
    ];
    assert_eq!(
        clean_build_folder(ProjectType::Node, &outcomes, &vec![]),
        Ok("Cleaned 2 folder(s), freed 2 MB. Errors: build: permission denied, .output: busy"
            .to_string())
    );
}

#[test]
fn cleaning_fails_where_nothing_could_be_removed() {
    let outcomes = vec![failed("denied"), Removal::Skipped, failed("in use")];
    assert_eq!(
        clean_build_folder(ProjectType::Android, &outcomes, &vec![]),
        Err("Failed to clean: app/build: denied, .gradle: in use".to_string())
    );
}

#[test]
fn python_caches_of_subdirectories_count_where_removed() {
    let outcomes = vec![Removal::Removed { freed: 100 }];
    let caches = vec![
        Deletion::Done,
        Deletion::Failed { error: "x".to_string() },
        Deletion::Absent,
        Deletion::Done,
    ];
    assert_eq!(
        clean_build_folder(ProjectType::Python, &outcomes, &caches),
        Ok("Cleaned 3 folder(s), freed 100 B".to_string())
    );
    assert_eq!(
        clean_build_folder(ProjectType::Python, &vec![], &caches),
        Ok("Cleaned 2 folder(s), freed 0 B".to_string())
    );
    assert_eq!(
        clean_build_folder(ProjectType::Rust, &outcomes, &caches),
        Ok("Cleaned 1 folder(s), freed 100 B".to_string())
    );
    assert_eq!(
        clean_build_folder(ProjectType::Python, &vec![failed("no")], &caches),
        Ok("Cleaned 2 folder(s), freed 0 B. Errors: __pycache__: no".to_string())
    );
}

#[test]
fn outcomes_beyond_the_targets_do_not_count() {
    let outcomes = vec![Removal::Skipped, Removal::Removed { freed: 5 }, failed("late")];
    assert_eq!(
        clean_build_folder(ProjectType::Rust, &outcomes, &vec![]),
        Ok("No build folders to clean".to_string())
    );
}

#[test]
fn the_kind_to_clean_is_the_given_one_or_the_detected_one() {
    let markers = Markers::none().record(Marker::CargoToml, true);
    assert_eq!(resolve_project_type(None, &markers), ProjectType::Rust);
    assert_eq!(resolve_project_type(Some("node"), &markers), ProjectType::Node);
    assert_eq!(resolve_project_type(Some("java"), &markers), ProjectType::Other);
}

#[test]
fn deleting_a_missing_dependency_folder_is_an_error() {
    assert_eq!(
        delete_node_modules(&Deletion::Absent),
        Err("node_modules directory does not exist".to_string())
    );
}

#[test]
fn deleting_a_dependency_folder_reports_the_outcome() {
    assert_eq!(
        delete_node_modules(&Deletion::Done),
        Ok("node_modules deleted successfully".to_string())
    );
    assert_eq!(
        delete_node_modules(&Deletion::Failed { error: "Permission denied (os error 13)".to_string() }),
        Err("Failed to delete node_modules: Permission denied (os error 13)".to_string())
    );
}

#[test]
fn bulk_delete_passes_over_projects_without_dependency_folder() {
    let batch = vec![attempt("A", Removal::Removed { freed: 12 }), attempt("B", Removal::Skipped)];
    let results = bulk_delete_node_modules(&batch);
    assert_eq!(results.len(), 1);
    assert_eq!(
        results[0],
        HygieneResult { path: "A".to_string(), success: true, freed_bytes: 12, error: None }
    );
    assert_eq!(batch[1].outcome, Removal::Skipped);
    assert!(delete_node_modules(&Deletion::Absent).is_err());
    assert_eq!(
        delete_node_modules(&Deletion::Absent),
        Err("node_modules directory does not exist".to_string())
    );
}

#[test]
fn bulk_delete_reports_in_the_order_of_the_batch() {
    let batch = vec![
        attempt("/one", failed("busy")),
        attempt("/two", Removal::Skipped),
        attempt("/three", Removal::Removed { freed: 3 }),
        attempt("/four", failed("denied")),
    ];
    let results = bulk_delete_node_modules(&batch);
    let lines: Vec<String> = results.iter().map(|r| r.line()).collect();
    assert_eq!(lines, vec!["✗ /one: busy", "✓ /three", "✗ /four: denied"]);
    assert_eq!(results[0].error, Some("busy".to_string()));
    assert!(!results[0].success);
    assert_eq!(results[0].freed_bytes, 0);
    assert_eq!(bulk_delete_node_modules(&vec![]), Vec::<HygieneResult>::new());
}

#[test]
fn the_size_of_a_missing_dependency_folder_is_zero_bytes() {
    assert_eq!(get_node_modules_size(&FsNode::Missing), "0 B");
    assert_eq!(
        get_node_modules_size(&FsNode::Dir { entries: vec![FsNode::File { len: 5 * 1048576 }] }),
        "5 MB"
    );
}

#[test]
fn cleaning_a_flutter_project_looks_at_both_its_folders() {
    let outcomes = vec![Removal::Removed { freed: 1024 }, Removal::Removed { freed: 2048 }];
    assert_eq!(
        clean_build_folder(ProjectType::Flutter, &outcomes, &vec![]),
        Ok("Cleaned 2 folder(s), freed 3 KB".to_string())
    );
}

#[test]
fn cleaning_a_go_project_frees_its_bin() {
    assert_eq!(
        clean_build_folder(ProjectType::Go, &vec![Removal::Removed { freed: 10 }], &vec![]),
        Ok("Cleaned 1 folder(s), freed 10 B".to_string())
    );
}
