use devlaunch::json::parse_json;
use devlaunch::tray::{
    load_projects_for_tray, storage_file, storage_folder, tray_action, tray_menu, tray_projects,
    MenuEntry, TrayAction, TrayProject,
};

fn project(id: &str, name: &str, path: &str) -> TrayProject {
    TrayProject { id: id.to_string(), name: name.to_string(), path: path.to_string() }
}

fn item(id: &str, label: &str, enabled: bool) -> MenuEntry {
    MenuEntry::Item { id: id.to_string(), label: label.to_string(), enabled }
}

fn stored(count: usize, archived: &[usize], broken: &[usize]) -> String {
    let mut parts = Vec::new();
    for i in 0..count {
        let flag = if archived.contains(&i) { ", \"isArchived\": true" } else { "" };
        let name = if broken.contains(&i) { "7".to_string() } else { format!("\"n{}\"", i) };
        parts.push(format!("{{\"id\": \"{}\", \"name\": {}, \"path\": \"/p/{}\"{}}}", i, name, i, flag));
    }
    format!("[{}]", parts.join(", "))
}

#[test]
fn the_list_of_projects_lies_in_a_fixed_place() {
    assert_eq!(storage_folder(), "com.devlaunch.app");
    assert_eq!(storage_file(), "projects.json");
}

#[test]
fn stored_projects_are_listed_in_order() {
    let listed = load_projects_for_tray(Some(&stored(3, &[], &[])));
    assert_eq!(
        listed,
        vec![project("0", "n0", "/p/0"), project("1", "n1", "/p/1"), project("2", "n2", "/p/2")]
    );
}

#[test]
fn archived_projects_are_left_out() {
    let listed = load_projects_for_tray(Some(&stored(4, &[0, 2], &[])));
    assert_eq!(listed, vec![project("1", "n1", "/p/1"), project("3", "n3", "/p/3")]);
}

#[test]
fn only_a_true_flag_archives() {
    let text = "[{\"id\": \"a\", \"name\": \"b\", \"path\": \"c\", \"isArchived\": false},
                 {\"id\": \"d\", \"name\": \"e\", \"path\": \"f\", \"isArchived\": \"yes\"},
                 {\"id\": \"g\", \"name\": \"h\", \"path\": \"i\", \"isArchived\": null}]";
    assert_eq!(load_projects_for_tray(Some(text)).len(), 3);
}

#[test]
fn at_most_ten_projects_are_looked_at() {
    let listed = load_projects_for_tray(Some(&stored(15, &[], &[])));
    assert_eq!(listed.len(), 10);
    assert_eq!(listed[9], project("9", "n9", "/p/9"));
}

#[test]
fn archived_projects_do_not_count_towards_the_ten() {
    let listed = load_projects_for_tray(Some(&stored(15, &[0, 1, 2], &[])));
    assert_eq!(listed.len(), 10);
    assert_eq!(listed[0], project("3", "n3", "/p/3"));
    assert_eq!(listed[9], project("12", "n12", "/p/12"));
}

#[test]
fn incomplete_projects_count_towards_the_ten() {
    let listed = load_projects_for_tray(Some(&stored(15, &[], &[1, 4])));
    assert_eq!(listed.len(), 8);
    assert_eq!(listed[7], project("9", "n9", "/p/9"));
}

#[test]
fn a_store_that_is_no_list_gives_no_projects() {
    assert_eq!(load_projects_for_tray(Some("{\"id\": 1}")), vec![]);
    assert_eq!(load_projects_for_tray(Some("not json")), vec![]);
    assert_eq!(load_projects_for_tray(Some("[1, \"x\", null]")), vec![]);
    assert_eq!(load_projects_for_tray(None), vec![]);
    assert_eq!(tray_projects(&parse_json("[]").unwrap()), vec![]);
}

#[test]
fn the_menu_without_projects_says_so() {
    assert_eq!(
        tray_menu(&vec![]),
        vec![
            item("header", "── Quick Open ──", false),
            MenuEntry::Separator,
            item("no_projects", "No projects yet", false),
            MenuEntry::Separator,
            item("show", "Show Window", true),
            item("quit", "Quit DevLaunch", true),
        ]
    );
}

#[test]
fn the_menu_has_a_line_for_every_project() {
    assert_eq!(
        tray_menu(&vec![project("1", "shop", "/w/shop"), project("2", "blog", "/w/blog")]),
        vec![
            item("header", "── Quick Open ──", false),
            MenuEntry::Separator,
            item("open:/w/shop", "📁 shop", true),
            item("open:/w/blog", "📁 blog", true),
            MenuEntry::Separator,
            item("show", "Show Window", true),
            item("quit", "Quit DevLaunch", true),
        ]
    );
}

#[test]
fn clicks_are_told_apart_by_identifier() {
    assert_eq!(tray_action("quit"), TrayAction::Quit);
    assert_eq!(tray_action("show"), TrayAction::Show);
    assert_eq!(tray_action("open:/w/shop"), TrayAction::Open { path: "/w/shop".to_string() });
    assert_eq!(tray_action("open:"), TrayAction::Open { path: "".to_string() });
    assert_eq!(tray_action("open:ü/é"), TrayAction::Open { path: "ü/é".to_string() });
    assert_eq!(tray_action("header"), TrayAction::Ignore);
    assert_eq!(tray_action("no_projects"), TrayAction::Ignore);
    assert_eq!(tray_action("open"), TrayAction::Ignore);
    assert_eq!(tray_action(""), TrayAction::Ignore);
}
