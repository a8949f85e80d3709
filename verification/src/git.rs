//! The source-control summary of a project, from what git printed.

use crate::text::{lines_of, split_lines, texts, trim_text, trimmed};
use crate::tools::Run;
use vstd::prelude::*;
use vstd::string::*;

verus! {

/// The source-control state of a project as it is shown.
#[derive(Debug, Clone, PartialEq, Eq)]
pub struct GitStatus {
    pub branch: String,
    pub status: String,
    pub count: Option<i32>,
    pub status_type: String,
}

/// A source-control state as text.
pub struct GitSummary {
    pub branch: Seq<char>,
    pub status: Seq<char>,
    pub count: Option<i32>,
    pub status_type: Seq<char>,
}

impl View for GitStatus {
    type V = GitSummary;

    open spec fn view(&self) -> GitSummary {
        GitSummary {
            branch: self.branch@,
            status: self.status@,
            count: self.count,
            status_type: self.status_type@,
        }
    }
}

/// What git printed for a project; `None` where a command could not be run,
/// failed, or (for the branch) printed no valid text.
#[derive(Debug, Clone, PartialEq, Eq)]
pub struct GitProbe {
    /// The output of `git rev-parse --abbrev-ref HEAD`.
    pub branch_output: Option<String>,
    /// The output of `git status --porcelain`.
    pub status_output: Option<String>,
}

/// The arguments with which git names the current branch.
pub fn branch_query() -> (r: Vec<&'static str>)
    ensures
        r@.len() == 3,
        r@[0]@ == "rev-parse"@,
        r@[1]@ == "--abbrev-ref"@,
        r@[2]@ == "HEAD"@,
{
    vec!["rev-parse", "--abbrev-ref", "HEAD"]
}

/// The arguments with which git lists the changes of the working tree.
pub fn status_query() -> (r: Vec<&'static str>)
    ensures
        r@.len() == 2,
        r@[0]@ == "status"@,
        r@[1]@ == "--porcelain"@,
{
    vec!["status", "--porcelain"]
}

/// The state shown for a project that is not under version control.
pub open spec fn neutral_summary() -> GitSummary {
    GitSummary { branch: "No Git"@, status: "N/A"@, count: None, status_type: "neutral"@ }
}

/// The state of a project from the number of lines that `git status`
/// printed: clean without any, else modified with their number.
pub open spec fn summary_from(
    branch: Seq<char>,
    changes: Option<nat>,
) -> GitSummary {
    match changes {
        Some(n) => if n == 0 {
            GitSummary { branch, status: "Clean"@, count: None, status_type: "success"@ }
        } else {
            GitSummary {
                branch,
                status: "Modified"@,
                count: Some(n as i32),
                status_type: "warning"@,
            }
        },
        None => GitSummary { branch, status: "Unknown"@, count: None, status_type: "neutral"@ },
    }
}

/// The branch shown: what git printed, trimmed; `unknown` without it.
pub open spec fn branch_of(output: Option<String>) -> Seq<char> {
    match output {
        Some(text) => trimmed(text@),
        None => "unknown"@,
    }
}

/// The number of changes: the number of lines that git printed.
pub open spec fn changes_of(output: Option<String>) -> Option<nat> {
    match output {
        Some(text) => Some(lines_of(text@).len()),
        None => None,
    }
}

/// The source-control state of a project.
pub open spec fn git_summary(has_git: bool, probe: GitProbe) -> GitSummary {
    if has_git {
        summary_from(branch_of(probe.branch_output), changes_of(probe.status_output))
    } else {
        neutral_summary()
    }
}

/// The state shown for a branch and a number of changed paths; `None` where
/// the changes could not be listed.
pub fn summarize_changes(branch: String, changes: Option<usize>) -> (r: GitStatus)
    ensures
        r@ == summary_from(
            branch@,
            match changes {
                Some(n) => Some(n as nat),
                None => None,
            },
        ),
{
    match changes {
        Some(n) => {
            if n == 0 {
                GitStatus {
                    branch,
                    status: String::from_str("Clean"),
                    count: None,
                    status_type: String::from_str("success"),
                }
            } else {
                let shown: i32 = #[verifier::truncate]
                (n as i32);
                GitStatus {
                    branch,
                    status: String::from_str("Modified"),
                    count: Some(shown),
                    status_type: String::from_str("warning"),
                }
            }
        },
        None => GitStatus {
            branch,
            status: String::from_str("Unknown"),
            count: None,
            status_type: String::from_str("neutral"),
        },
    }
}

/// The source-control state of a project. Without a `.git` entry the state
/// is neutral and what git printed is not looked at.
pub fn get_git_info(has_git: bool, probe: &GitProbe) -> (r: GitStatus)
    ensures
        r@ == git_summary(has_git, *probe),
{
    if !has_git {
        return GitStatus {
            branch: String::from_str("No Git"),
            status: String::from_str("N/A"),
            count: None,
            status_type: String::from_str("neutral"),
        };
    }
    let branch = match &probe.branch_output {
        Some(text) => trim_text(text.as_str()),
        None => String::from_str("unknown"),
    };
    let changes: Option<usize> = match &probe.status_output {
        Some(text) => {
            let lines = split_lines(text.as_str());
            assert(texts(lines@).len() == lines@.len());
            Some(lines.len())
        },
        None => None,
    };
    summarize_changes(branch, changes)
}

/// The arguments with which git pulls.
pub fn pull_query() -> (r: Vec<&'static str>)
    ensures
        r@.len() == 1,
        r@[0]@ == "pull"@,
{
    vec!["pull"]
}

/// The arguments with which git fetches from every remote.
pub fn fetch_query() -> (r: Vec<&'static str>)
    ensures
        r@.len() == 2,
        r@[0]@ == "fetch"@,
        r@[1]@ == "--all"@,
{
    vec!["fetch", "--all"]
}

/// What a git command that was waited for reports: its output where it
/// succeeded, else what it printed as error.
pub open spec fn git_report(run: Run, verb: Seq<char>, title: Seq<char>, done: Option<Seq<char>>) -> Result<
    Seq<char>,
    Seq<char>,
> {
    match run {
        Run::NotStarted { error } => Err("Failed to run git "@ + verb + ": "@ + error@),
        Run::Finished { output } => if output.success {
            match done {
                Some(message) => Ok(message),
                None => Ok(output.stdout@),
            }
        } else {
            Err(title + " failed: "@ + output.stderr@)
        },
    }
}

fn report_git(run: &Run, verb: &str, title: &str, done: Option<&str>) -> (r: Result<String, String>)
    ensures
        match r {
            Ok(message) => git_report(
                *run,
                verb@,
                title@,
                match done {
                    Some(d) => Some(d@),
                    None => None,
                },
            ) == Ok::<Seq<char>, Seq<char>>(message@),
            Err(message) => git_report(
                *run,
                verb@,
                title@,
                match done {
                    Some(d) => Some(d@),
                    None => None,
                },
            ) == Err::<Seq<char>, Seq<char>>(message@),
        },
{
    match run {
        Run::NotStarted { error } => {
            let mut message = String::from_str("Failed to run git ");
            message.append(verb);
            message.append(": ");
            message.append(error.as_str());
            Err(message)
        },
        Run::Finished { output } => {
            if output.success {
                match done {
                    Some(d) => Ok(String::from_str(d)),
                    None => Ok(output.stdout.clone()),
                }
            } else {
                let mut message = String::from_str(title);
                message.append(" failed: ");
                message.append(output.stderr.as_str());
                Err(message)
            }
        },
    }
}

/// Reports on `git pull`: what git printed where it succeeded.
pub fn git_pull(run: &Run) -> (r: Result<String, String>)
    ensures
        match r {
            Ok(message) => git_report(*run, "pull"@, "Git pull"@, None) == Ok::<
                Seq<char>,
                Seq<char>,
            >(message@),
            Err(message) => git_report(*run, "pull"@, "Git pull"@, None) == Err::<
                Seq<char>,
                Seq<char>,
            >(message@),
        },
{
    report_git(run, "pull", "Git pull", None)
}

/// Reports on `git fetch --all`.
pub fn git_fetch(run: &Run) -> (r: Result<String, String>)
    ensures
        match r {
            Ok(message) => git_report(
                *run,
                "fetch"@,
                "Git fetch"@,
                Some("Fetch completed successfully"@),
            ) == Ok::<Seq<char>, Seq<char>>(message@),
            Err(message) => git_report(
                *run,
                "fetch"@,
                "Git fetch"@,
                Some("Fetch completed successfully"@),
            ) == Err::<Seq<char>, Seq<char>>(message@),
        },
{
    report_git(run, "fetch", "Git fetch", Some("Fetch completed successfully"))
}

} // verus!
