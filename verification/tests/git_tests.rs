use devlaunch::git::{branch_query, get_git_info, status_query, summarize_changes, GitProbe, GitStatus};

fn status(branch: &str, status: &str, count: Option<i32>, kind: &str) -> GitStatus {
    GitStatus {
        branch: branch.to_string(),
        status: status.to_string(),
        count,
        status_type: kind.to_string(),
    }
}

fn probe(branch: Option<&str>, changes: Option<&str>) -> GitProbe {
    GitProbe {
        branch_output: branch.map(String::from),
        status_output: changes.map(String::from),
    }
}

#[test]
fn without_git_the_state_is_neutral() {
    let p = probe(Some("main\n"), Some(" M file\n"));
    assert_eq!(get_git_info(false, &p), status("No Git", "N/A", None, "neutral"));
}

#[test]
fn a_clean_tree_has_no_count() {
    assert_eq!(
        get_git_info(true, &probe(Some("  main \n"), Some(""))),
        status("main", "Clean", None, "success")
    );
}

#[test]
fn a_modified_tree_counts_its_lines() {
    assert_eq!(
        get_git_info(true, &probe(Some("feature/x\n"), Some(" M a\r\n?? b\n D c"))),
        status("feature/x", "Modified", Some(3), "warning")
    );
}

#[test]
fn failed_commands_give_unknown() {
    assert_eq!(
        get_git_info(true, &probe(None, None)),
        status("unknown", "Unknown", None, "neutral")
    );
    assert_eq!(
        get_git_info(true, &probe(None, Some("x\n"))),
        status("unknown", "Modified", Some(1), "warning")
    );
}

#[test]
fn the_number_of_changes_decides_the_state() {
    assert_eq!(
        summarize_changes("dev".to_string(), Some(0)),
        status("dev", "Clean", None, "success")
    );
    assert_eq!(
        summarize_changes("dev".to_string(), Some(41)),
        status("dev", "Modified", Some(41), "warning")
    );
    assert_eq!(
        summarize_changes("dev".to_string(), None),
        status("dev", "Unknown", None, "neutral")
    );
}

#[test]
fn git_is_asked_with_fixed_arguments() {
    assert_eq!(branch_query(), vec!["rev-parse", "--abbrev-ref", "HEAD"]);
    assert_eq!(status_query(), vec!["status", "--porcelain"]);
}
