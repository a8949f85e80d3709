use devlaunch::health::{
    check_health, get_scripts, health_report, outdated_count, scripts_of, timestamp_format,
    vulnerabilities_of, HealthStatus, ManifestRead, ProjectScript, Vulnerabilities,
};
use devlaunch::json::{parse_json, Json};

fn script(name: &str, command: &str) -> ProjectScript {
    ProjectScript { name: name.to_string(), command: command.to_string() }
}

const NONE: Vulnerabilities = Vulnerabilities { low: 0, moderate: 0, high: 0, critical: 0 };

#[test]
fn no_manifest_no_scripts() {
    assert_eq!(get_scripts(&ManifestRead::Absent), Ok(vec![]));
}

#[test]
fn an_unreadable_manifest_is_an_error() {
    assert_eq!(
        get_scripts(&ManifestRead::Unreadable { error: "denied".to_string() }),
        Err("Failed to read package.json: denied".to_string())
    );
}

#[test]
fn a_manifest_that_is_no_json_is_an_error() {
    let r = get_scripts(&ManifestRead::Text { content: "{".to_string() });
    let message = r.unwrap_err();
    assert!(message.starts_with("Failed to parse package.json: "));
    assert!(message.len() > "Failed to parse package.json: ".len());
}

#[test]
fn scripts_come_with_their_commands() {
    let content = "{\"scripts\": {\"build\": \"vite build\", \"dev\": \"vite\", \"odd\": 3}}";
    assert_eq!(
        get_scripts(&ManifestRead::Text { content: content.to_string() }),
        Ok(vec![script("build", "vite build"), script("dev", "vite"), script("odd", "")])
    );
}

#[test]
fn scripts_that_are_no_object_are_none() {
    assert_eq!(scripts_of(&parse_json("{\"scripts\": [1]}").unwrap()), vec![]);
    assert_eq!(scripts_of(&parse_json("{\"name\": \"x\"}").unwrap()), vec![]);
    assert_eq!(scripts_of(&Json::Null), vec![]);
}

#[test]
fn outdated_packages_are_counted() {
    let doc = parse_json("{\"a\": {}, \"b\": {}, \"c\": {}}").unwrap();
    assert_eq!(outdated_count(Some(&doc)), 3);
    assert_eq!(outdated_count(Some(&Json::Array(vec![Json::Null]))), 0);
    assert_eq!(outdated_count(None), 0);
}

#[test]
fn vulnerabilities_are_read_from_the_metadata() {
    let doc = parse_json(
        "{\"metadata\": {\"vulnerabilities\": {\"low\": 1, \"moderate\": 2, \"high\": 3,
          \"critical\": 4, \"total\": 10}}}",
    )
    .unwrap();
    assert_eq!(
        vulnerabilities_of(Some(&doc)),
        Vulnerabilities { low: 1, moderate: 2, high: 3, critical: 4 }
    );
}

#[test]
fn counts_that_are_no_whole_numbers_are_zero() {
    let doc = parse_json(
        "{\"metadata\": {\"vulnerabilities\": {\"low\": \"1\", \"moderate\": 2.5, \"high\": null,
          \"critical\": 4294967297}}}",
    )
    .unwrap();
    assert_eq!(
        vulnerabilities_of(Some(&doc)),
        Vulnerabilities { low: 0, moderate: 0, high: 0, critical: 1 }
    );
    assert_eq!(vulnerabilities_of(Some(&parse_json("{\"metadata\": 1}").unwrap())), NONE);
    assert_eq!(vulnerabilities_of(Some(&parse_json("{}").unwrap())), NONE);
    assert_eq!(vulnerabilities_of(None), NONE);
}

#[test]
fn a_health_report_takes_what_was_printed() {
    let outdated = Some("{\"left-pad\": {\"current\": \"1.0.0\"}}".to_string());
    let audit = Some("{\"metadata\": {\"vulnerabilities\": {\"high\": 7}}}".to_string());
    assert_eq!(
        health_report(&outdated, &audit, "2024-06-01 12:00".to_string()),
        HealthStatus {
            outdated_count: 1,
            vulnerabilities: Vulnerabilities { low: 0, moderate: 0, high: 7, critical: 0 },
            last_checked: Some("2024-06-01 12:00".to_string()),
        }
    );
    assert_eq!(
        health_report(&Some("npm ERR!".to_string()), &None, "t".to_string()),
        HealthStatus { outdated_count: 0, vulnerabilities: NONE, last_checked: Some("t".to_string()) }
    );
}

#[test]
fn a_check_is_stamped_with_the_local_time() {
    let status = check_health(&None, &None);
    let stamp = status.last_checked.unwrap();
    let shape: Vec<bool> = stamp.chars().map(|c| c.is_ascii_digit()).collect();
    assert_eq!(stamp.len(), 16);
    assert_eq!(&stamp[4..5], "-");
    assert_eq!(&stamp[7..8], "-");
    assert_eq!(&stamp[10..11], " ");
    assert_eq!(&stamp[13..14], ":");
    assert_eq!(shape.iter().filter(|d| **d).count(), 12);
    assert_eq!(timestamp_format(), "%Y-%m-%d %H:%M");
}
