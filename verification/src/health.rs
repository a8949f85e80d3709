//! The scripts of a node-style manifest and the health of its dependencies,
//! from the manifest and from what the package manager printed.

use crate::json::{json_document, parse_json, Json};
use vstd::prelude::*;
use vstd::string::*;

verus! {

/// A script of a manifest: its name and the command it runs.
#[derive(Debug, Clone, PartialEq, Eq)]
pub struct ProjectScript {
    pub name: String,
    pub command: String,
}

impl View for ProjectScript {
    type V = (Seq<char>, Seq<char>);

    open spec fn view(&self) -> (Seq<char>, Seq<char>) {
        (self.name@, self.command@)
    }
}

/// How many known vulnerabilities of each severity the dependencies have.
#[derive(Debug, Clone, Copy, PartialEq, Eq, Structural)]
pub struct Vulnerabilities {
    pub low: i32,
    pub moderate: i32,
    pub high: i32,
    pub critical: i32,
}

/// The health of the dependencies of a project.
#[derive(Debug, Clone, PartialEq, Eq)]
pub struct HealthStatus {
    pub outdated_count: i32,
    pub vulnerabilities: Vulnerabilities,
    pub last_checked: Option<String>,
}

/// What reading a manifest gave.
#[derive(Debug, Clone, PartialEq, Eq)]
pub enum ManifestRead {
    /// There is no manifest.
    Absent,
    /// The manifest could not be read; `error` says why.
    Unreadable { error: String },
    /// The text of the manifest.
    Text { content: String },
}

/// The scripts as text, in order.
pub open spec fn scripts_view(scripts: Seq<ProjectScript>) -> Seq<(Seq<char>, Seq<char>)> {
    Seq::new(scripts.len(), |i: int| scripts[i]@)
}

/// The command of a script: its value where that is a text, else nothing.
pub open spec fn command_text(value: Json) -> Seq<char> {
    match value {
        Json::Text(t) => t@,
        _ => Seq::empty(),
    }
}

/// The scripts of a manifest: the members of the object under `scripts`, in
/// its order; none where there is no such object.
pub open spec fn scripts_in(doc: Json) -> Seq<(Seq<char>, Seq<char>)> {
    match doc.member("scripts"@) {
        Some(Json::Object(members)) => Seq::new(
            members@.len(),
            |i: int| (members@[i].0@, command_text(members@[i].1)),
        ),
        _ => Seq::empty(),
    }
}

/// The scripts of a manifest.
pub fn scripts_of(doc: &Json) -> (r: Vec<ProjectScript>)
    ensures
        scripts_view(r@) == scripts_in(*doc),
{
    let mut scripts: Vec<ProjectScript> = Vec::new();
    match doc.get("scripts") {
        Some(Json::Object(members)) => {
            let mut i: usize = 0;
            while i < members.len()
                invariant
                    i <= members.len(),
                    scripts@.len() == i,
                    forall|k: int|
                        0 <= k < i ==> (#[trigger] scripts@[k])@ == (
                            members@[k].0@,
                            command_text(members@[k].1),
                        ),
                decreases members.len() - i,
            {
                let command = match &members[i].1 {
                    Json::Text(t) => t.clone(),
                    _ => String::new(),
                };
                scripts.push(ProjectScript { name: members[i].0.clone(), command });
                i = i + 1;
            }
            assert(scripts_view(scripts@) =~= scripts_in(*doc));
        },
        _ => {
            assert(scripts_view(scripts@) =~= scripts_in(*doc));
        },
    }
    scripts
}

/// What listing the scripts of a manifest gives: nothing without a
/// manifest; an error where it cannot be read or is no JSON, with the
/// reason; else its scripts.
pub open spec fn scripts_report(manifest: ManifestRead) -> Result<
    Seq<(Seq<char>, Seq<char>)>,
    Seq<char>,
> {
    match manifest {
        ManifestRead::Absent => Ok(Seq::empty()),
        ManifestRead::Unreadable { error } => Err("Failed to read package.json: "@ + error@),
        ManifestRead::Text { content } => match json_document(content@) {
            Ok(doc) => Ok(scripts_in(doc)),
            Err(reason) => Err("Failed to parse package.json: "@ + reason),
        },
    }
}

/// Lists the scripts of a manifest.
pub fn get_scripts(manifest: &ManifestRead) -> (r: Result<Vec<ProjectScript>, String>)
    ensures
        match r {
            Ok(scripts) => scripts_report(*manifest) == Ok::<
                Seq<(Seq<char>, Seq<char>)>,
                Seq<char>,
            >(scripts_view(scripts@)),
            Err(message) => scripts_report(*manifest) == Err::<
                Seq<(Seq<char>, Seq<char>)>,
                Seq<char>,
            >(message@),
        },
{
    match manifest {
        ManifestRead::Absent => {
            let none: Vec<ProjectScript> = Vec::new();
            assert(scripts_view(none@) =~= Seq::empty());
            Ok(none)
        },
        ManifestRead::Unreadable { error } => {
            let mut message = String::from_str("Failed to read package.json: ");
            message.append(error.as_str());
            Err(message)
        },
        ManifestRead::Text { content } => match parse_json(content.as_str()) {
            Ok(doc) => Ok(scripts_of(&doc)),
            Err(reason) => {
                let mut message = String::from_str("Failed to parse package.json: ");
                message.append(reason.as_str());
                Err(message)
            },
        },
    }
}

/// The number of outdated packages that a report tells: the number of
/// members of the object that it is, as 32 bits hold it; zero for anything
/// else.
pub open spec fn outdated_in(report: Option<Json>) -> i32 {
    match report {
        Some(Json::Object(members)) => members@.len() as i32,
        _ => 0,
    }
}

/// The number under `severity` in an object of counts, as 32 bits hold it;
/// zero where there is no whole number.
pub open spec fn count_in(counts: Json, severity: Seq<char>) -> i32 {
    match counts.member(severity) {
        Some(Json::Number(Some(n))) => n as i32,
        _ => 0,
    }
}

/// The vulnerabilities that an audit tells: the counts under `metadata`,
/// `vulnerabilities`; all zero where there are none.
pub open spec fn vulnerabilities_in(audit: Option<Json>) -> Vulnerabilities {
    match audit {
        Some(doc) => match doc.member("metadata"@) {
            Some(metadata) => match metadata.member("vulnerabilities"@) {
                Some(counts) => Vulnerabilities {
                    low: count_in(counts, "low"@),
                    moderate: count_in(counts, "moderate"@),
                    high: count_in(counts, "high"@),
                    critical: count_in(counts, "critical"@),
                },
                None => Vulnerabilities { low: 0, moderate: 0, high: 0, critical: 0 },
            },
            None => Vulnerabilities { low: 0, moderate: 0, high: 0, critical: 0 },
        },
        None => Vulnerabilities { low: 0, moderate: 0, high: 0, critical: 0 },
    }
}

/// The number of outdated packages that a report tells.
pub fn outdated_count(report: Option<&Json>) -> (r: i32)
    ensures
        r == outdated_in(
            match report {
                Some(doc) => Some(*doc),
                None => None,
            },
        ),
{
    match report {
        Some(Json::Object(members)) => {
            let n: usize = members.len();
            #[verifier::truncate]
            (n as i32)
        },
        _ => 0,
    }
}

fn severity_count(counts: &Json, severity: &str) -> (r: i32)
    ensures
        r == count_in(*counts, severity@),
{
    match counts.get(severity) {
        Some(Json::Number(Some(n))) => {
            let n: i64 = *n;
            #[verifier::truncate]
            (n as i32)
        },
        _ => 0,
    }
}

/// The vulnerabilities that an audit tells.
pub fn vulnerabilities_of(audit: Option<&Json>) -> (r: Vulnerabilities)
    ensures
        r == vulnerabilities_in(
            match audit {
                Some(doc) => Some(*doc),
                None => None,
            },
        ),
{
    let none = Vulnerabilities { low: 0, moderate: 0, high: 0, critical: 0 };
    match audit {
        Some(doc) => match doc.get("metadata") {
            Some(metadata) => match metadata.get("vulnerabilities") {
                Some(counts) => Vulnerabilities {
                    low: severity_count(counts, "low"),
                    moderate: severity_count(counts, "moderate"),
                    high: severity_count(counts, "high"),
                    critical: severity_count(counts, "critical"),
                },
                None => none,
            },
            None => none,
        },
        None => none,
    }
}

/// The JSON document that a command printed, where it printed one.
pub open spec fn printed_json(output: Option<String>) -> Option<Json> {
    match output {
        Some(text) => match json_document(text@) {
            Ok(doc) => Some(doc),
            Err(_) => None,
        },
        None => None,
    }
}

fn read_printed(output: &Option<String>) -> (r: Option<Json>)
    ensures
        r == printed_json(*output),
{
    match output {
        Some(text) => match parse_json(text.as_str()) {
            Ok(doc) => Some(doc),
            Err(_) => None,
        },
        None => None,
    }
}

/// The health of the dependencies of a project, checked at `checked_at`.
/// `outdated` is what the package manager printed for `outdated --json`,
/// `audit` what npm printed for `audit --json`; `None` where the command
/// could not be run. Output that is no JSON counts as no finding.
pub fn health_report(outdated: &Option<String>, audit: &Option<String>, checked_at: String) -> (r:
    HealthStatus)
    ensures
        r.outdated_count == outdated_in(printed_json(*outdated)),
        r.vulnerabilities == vulnerabilities_in(printed_json(*audit)),
        r.last_checked == Some(checked_at),
{
    let report = read_printed(outdated);
    let findings = read_printed(audit);
    HealthStatus {
        outdated_count: outdated_count(report.as_ref()),
        vulnerabilities: vulnerabilities_of(findings.as_ref()),
        last_checked: Some(checked_at),
    }
}

/// The arguments with which a package manager lists outdated packages.
pub fn outdated_query() -> (r: Vec<&'static str>)
    ensures
        r@.len() == 2,
        r@[0]@ == "outdated"@,
        r@[1]@ == "--json"@,
{
    vec!["outdated", "--json"]
}

/// The arguments with which npm audits the dependencies.
pub fn audit_query() -> (r: Vec<&'static str>)
    ensures
        r@.len() == 2,
        r@[0]@ == "audit"@,
        r@[1]@ == "--json"@,
{
    vec!["audit", "--json"]
}

/// The form in which the time of a check is written: year, month, day,
/// hour and minute.
pub fn timestamp_format() -> (r: &'static str)
    ensures
        r@ == "%Y-%m-%d %H:%M"@,
{
    "%Y-%m-%d %H:%M"
}

/// `chrono::Local::now` of the chrono crate, written by `format` in the
/// form that `timestamp_format` gives: the local time of the call. The
/// result depends on the clock and the time zone of the machine, so nothing
/// is claimed of it. No other form is let in, since writing the time in a
/// form that chrono does not know panics.
#[verifier::external_body]
fn local_time(form: &str) -> (r: String)
    requires
        form@ == "%Y-%m-%d %H:%M"@,
{
    chrono::Local::now().format(form).to_string()
}

/// Checks the health of the dependencies of a project now.
pub fn check_health(outdated: &Option<String>, audit: &Option<String>) -> (r: HealthStatus)
    ensures
        r.outdated_count == outdated_in(printed_json(*outdated)),
        r.vulnerabilities == vulnerabilities_in(printed_json(*audit)),
        r.last_checked is Some,
{
    let now = local_time(timestamp_format());
    health_report(outdated, audit, now)
}

} // verus!
