//! The versions of the developer tools on a machine, from what the tools
//! printed.

use crate::launch::Platform;
use crate::text::{
    lines_of, names, piece_after_first, replace_text, replaced, same_text, second_piece,
    split_lines, split_words, starts_with_seq, starts_with_text, texts, trim_text, trimmed,
    words_of,
};
use vstd::prelude::*;
use vstd::string::*;

verus! {

/// A developer tool and the version of it that is installed.
#[derive(Debug, Clone, PartialEq, Eq)]
pub struct ToolVersion {
    pub name: String,
    pub version: Option<String>,
    pub installed: bool,
    pub icon: String,
}

/// A tool and its version as text.
pub struct ToolView {
    pub name: Seq<char>,
    pub version: Option<Seq<char>>,
    pub installed: bool,
    pub icon: Seq<char>,
}

impl View for ToolVersion {
    type V = ToolView;

    open spec fn view(&self) -> ToolView {
        ToolView {
            name: self.name@,
            version: match self.version {
                Some(v) => Some(v@),
                None => None,
            },
            installed: self.installed,
            icon: self.icon@,
        }
    }
}

/// What a command printed and how it ended.
#[derive(Debug, Clone, PartialEq, Eq)]
pub struct CommandOutput {
    /// Whether the command ended with success.
    pub success: bool,
    /// What it printed on standard output.
    pub stdout: String,
    /// What it printed on standard error.
    pub stderr: String,
}

/// How a command ended that was waited for.
#[derive(Debug, Clone, PartialEq, Eq)]
pub enum Run {
    /// The command could not be started; `error` says why.
    NotStarted { error: String },
    /// The command ran to its end.
    Finished { output: CommandOutput },
}

/// A line without the prefixes that tools put before their version. The
/// prefixes are taken off one after the other, each from what the one
/// before it left, and every `v` goes second: a prefix with a `v` in it that
/// is looked for later is found no more.
pub open spec fn unprefixed(line: Seq<char>) -> Seq<char> {
    let none = Seq::<char>::empty();
    let a = replaced(line, "node "@, none);
    let b = replaced(a, "v"@, none);
    let c = replaced(b, "Python "@, none);
    let d = replaced(c, "java "@, none);
    let e = replaced(d, "Flutter "@, none);
    let f = replaced(e, "Dart SDK version: "@, none);
    let g = replaced(f, "rustc "@, none);
    replaced(g, "cargo "@, none)
}

/// The first of some texts; the empty text where there is none.
pub open spec fn first_or_empty(items: Seq<Seq<char>>) -> Seq<char> {
    if items.len() > 0 {
        items[0]
    } else {
        Seq::empty()
    }
}

/// A text, unless it is empty.
pub open spec fn unless_empty(text: Seq<char>) -> Option<Seq<char>> {
    if text.len() > 0 {
        Some(text)
    } else {
        None
    }
}

/// The text in which a tool's version is looked for: its standard output,
/// or its standard error where the output holds nothing but whitespace.
pub open spec fn version_source(stdout: Seq<char>, stderr: Seq<char>) -> Seq<char> {
    if trimmed(stdout).len() == 0 {
        stderr
    } else {
        stdout
    }
}

/// The version that a line tells: its first word once the prefixes are
/// gone, where there is one.
pub open spec fn line_version(line: Seq<char>) -> Option<Seq<char>> {
    unless_empty(first_or_empty(words_of(unprefixed(line))))
}

/// The version that a tool printed: that of the first line of the text in
/// which it is looked for. A command that failed tells no version.
pub open spec fn printed_version(success: bool, stdout: Seq<char>, stderr: Seq<char>) -> Option<
    Seq<char>,
> {
    let all = lines_of(version_source(stdout, stderr));
    if success && all.len() > 0 {
        line_version(all[0])
    } else {
        None
    }
}

/// The first of some words, unless there is none or it is empty.
pub fn first_word(words: &Vec<String>) -> (r: Option<String>)
    ensures
        match r {
            Some(w) => unless_empty(first_or_empty(texts(words@))) == Some(w@),
            None => unless_empty(first_or_empty(texts(words@))) is None,
        },
{
    if words.len() > 0 {
        let w = words[0].clone();
        assert(texts(words@)[0] == words@[0]@);
        if !w.as_str().is_empty() {
            Some(w)
        } else {
            None
        }
    } else {
        None
    }
}

fn strip_prefixes(line: &str) -> (r: String)
    ensures
        r@ == unprefixed(line@),
{
    proof {
        reveal_strlit("");
        assert(""@ =~= Seq::<char>::empty());
    }
    let a = replace_text(line, "node ", "");
    let b = replace_text(a.as_str(), "v", "");
    let c = replace_text(b.as_str(), "Python ", "");
    let d = replace_text(c.as_str(), "java ", "");
    let e = replace_text(d.as_str(), "Flutter ", "");
    let f = replace_text(e.as_str(), "Dart SDK version: ", "");
    let g = replace_text(f.as_str(), "rustc ", "");
    replace_text(g.as_str(), "cargo ", "")
}

/// The version that a line tells.
pub fn version_in_line(line: &str) -> (r: Option<String>)
    ensures
        match r {
            Some(v) => line_version(line@) == Some(v@),
            None => line_version(line@) is None,
        },
{
    let bare = strip_prefixes(line);
    let words = split_words(bare.as_str());
    first_word(&words)
}

/// The version of a tool from what its version command printed; `None`
/// where the command could not be run, failed, or printed nothing that
/// tells a version.
pub fn get_command_version(output: Option<&CommandOutput>) -> (r: Option<String>)
    ensures
        match output {
            Some(o) => match r {
                Some(v) => printed_version(o.success, o.stdout@, o.stderr@) == Some(v@),
                None => printed_version(o.success, o.stdout@, o.stderr@) is None,
            },
            None => r is None,
        },
{
    match output {
        Some(o) => {
            if !o.success {
                return None;
            }
            let source: &str = if trim_text(o.stdout.as_str()).as_str().is_empty() {
                o.stderr.as_str()
            } else {
                o.stdout.as_str()
            };
            let all = split_lines(source);
            if all.len() > 0 {
                assert(texts(all@)[0] == all@[0]@);
                version_in_line(all[0].as_str())
            } else {
                assert(texts(all@).len() == 0);
                None
            }
        },
        None => None,
    }
}

/// What the version commands of the tools printed; `None` where a command
/// could not be run.
#[derive(Debug, Clone, PartialEq, Eq)]
pub struct ToolOutputs {
    /// `node --version`.
    pub node: Option<CommandOutput>,
    /// `python --version`.
    pub python: Option<CommandOutput>,
    /// `python3 --version`, which counts where `python` tells no version.
    pub python3: Option<CommandOutput>,
    /// `java -version`.
    pub java: Option<CommandOutput>,
    /// `flutter --version`.
    pub flutter: Option<CommandOutput>,
    /// `rustc --version`.
    pub rustc: Option<CommandOutput>,
    /// `git --version`.
    pub git: Option<CommandOutput>,
}

/// The version that a command tells.
pub open spec fn command_version(output: Option<CommandOutput>) -> Option<Seq<char>> {
    match output {
        Some(o) => printed_version(o.success, o.stdout@, o.stderr@),
        None => None,
    }
}

/// The version of Java: what stands between the first two quotation marks
/// of the first line of its standard error, however the command ended.
pub open spec fn java_version(output: Option<CommandOutput>) -> Option<Seq<char>> {
    match output {
        Some(o) => {
            let all = lines_of(o.stderr@);
            if all.len() > 0 {
                second_piece(all[0], '"')
            } else {
                None
            }
        },
        None => None,
    }
}

/// The second word of the first of some lines that begins with `Flutter`.
pub open spec fn flutter_line_version(all: Seq<Seq<char>>) -> Option<Seq<char>>
    decreases all.len(),
{
    if all.len() == 0 {
        None
    } else if starts_with_seq(all[0], "Flutter"@) {
        if words_of(all[0]).len() > 1 {
            Some(words_of(all[0])[1])
        } else {
            None
        }
    } else {
        flutter_line_version(all.drop_first())
    }
}

/// The version of Flutter.
pub open spec fn flutter_version(output: Option<CommandOutput>) -> Option<Seq<char>> {
    match output {
        Some(o) => if o.success {
            flutter_line_version(lines_of(o.stdout@))
        } else {
            None
        },
        None => None,
    }
}

/// The version of git: the first word of what its version command tells,
/// once `git version ` is gone from it.
pub open spec fn git_version(output: Option<CommandOutput>) -> Option<Seq<char>> {
    match command_version(output) {
        Some(v) => Some(first_or_empty(words_of(replaced(v, "git version "@, Seq::empty())))),
        None => None,
    }
}

/// The version of Python: that of `python`, else that of `python3`.
pub open spec fn python_version(outputs: ToolOutputs) -> Option<Seq<char>> {
    match command_version(outputs.python) {
        Some(v) => Some(v),
        None => command_version(outputs.python3),
    }
}

/// A tool as it is listed: installed where it tells a version.
pub open spec fn listed_tool(name: Seq<char>, version: Option<Seq<char>>, icon: Seq<char>) -> ToolView {
    ToolView { name, version, installed: version is Some, icon }
}

/// The tools as they are listed.
pub open spec fn tool_list(outputs: ToolOutputs) -> Seq<ToolView> {
    seq![
        listed_tool("Node.js"@, command_version(outputs.node), "javascript"@),
        listed_tool("Python"@, python_version(outputs), "code"@),
        listed_tool("Java"@, java_version(outputs.java), "coffee"@),
        listed_tool("Flutter"@, flutter_version(outputs.flutter), "phone_iphone"@),
        listed_tool("Rust"@, command_version(outputs.rustc), "memory"@),
        listed_tool("Git"@, git_version(outputs.git), "git"@),
    ]
}

/// The tools as text, in order.
pub open spec fn tools_view(tools: Seq<ToolVersion>) -> Seq<ToolView> {
    Seq::new(tools.len(), |i: int| tools[i]@)
}

fn version_of(output: &Option<CommandOutput>) -> (r: Option<String>)
    ensures
        match r {
            Some(v) => command_version(*output) == Some(v@),
            None => command_version(*output) is None,
        },
{
    get_command_version(output.as_ref())
}

fn version_of_java(output: &Option<CommandOutput>) -> (r: Option<String>)
    ensures
        match r {
            Some(v) => java_version(*output) == Some(v@),
            None => java_version(*output) is None,
        },
{
    match output {
        Some(o) => {
            let all = split_lines(o.stderr.as_str());
            if all.len() > 0 {
                assert(texts(all@)[0] == all@[0]@);
                piece_after_first(all[0].as_str(), '"')
            } else {
                assert(texts(all@).len() == 0);
                None
            }
        },
        None => None,
    }
}

fn version_of_flutter(output: &Option<CommandOutput>) -> (r: Option<String>)
    ensures
        match r {
            Some(v) => flutter_version(*output) == Some(v@),
            None => flutter_version(*output) is None,
        },
{
    match output {
        Some(o) => {
            if !o.success {
                return None;
            }
            let all = split_lines(o.stdout.as_str());
            let mut i: usize = 0;
            assert(texts(all@).skip(0) =~= texts(all@));
            while i < all.len()
                invariant
                    i <= all.len(),
                    flutter_version(*output) == flutter_line_version(texts(all@)),
                    flutter_line_version(texts(all@)) == flutter_line_version(
                        texts(all@).skip(i as int),
                    ),
                decreases all.len() - i,
            {
                assert(texts(all@).skip(i as int).drop_first() =~= texts(all@).skip(i + 1));
                assert(texts(all@).skip(i as int)[0] == all@[i as int]@);
                if starts_with_text(all[i].as_str(), "Flutter") {
                    let words = split_words(all[i].as_str());
                    assert(texts(words@).len() == words@.len());
                    if words.len() > 1 {
                        assert(texts(words@)[1] == words@[1]@);
                        return Some(words[1].clone());
                    } else {
                        return None;
                    }
                }
                i = i + 1;
            }
            None
        },
        None => None,
    }
}

fn version_of_git(output: &Option<CommandOutput>) -> (r: Option<String>)
    ensures
        match r {
            Some(v) => git_version(*output) == Some(v@),
            None => git_version(*output) is None,
        },
{
    proof {
        reveal_strlit("");
        assert(""@ =~= Seq::<char>::empty());
    }
    match version_of(output) {
        Some(v) => {
            let bare = replace_text(v.as_str(), "git version ", "");
            let words = split_words(bare.as_str());
            assert(texts(words@).len() == words@.len());
            if words.len() > 0 {
                assert(texts(words@)[0] == words@[0]@);
                Some(words[0].clone())
            } else {
                Some(String::new())
            }
        },
        None => None,
    }
}

fn tool(name: &str, version: Option<String>, icon: &str) -> (r: ToolVersion)
    ensures
        r@ == listed_tool(
            name@,
            match version {
                Some(v) => Some(v@),
                None => None,
            },
            icon@,
        ),
{
    let installed = version.is_some();
    ToolVersion { name: String::from_str(name), version, installed, icon: String::from_str(icon) }
}

/// The version commands of the tools, in the order of the fields of
/// `ToolOutputs`: for each the program and its one argument.
pub fn version_commands() -> (r: Vec<(&'static str, &'static str)>)
    ensures
        r@.len() == 7,
        r@[0].0@ == "node"@ && r@[0].1@ == "--version"@,
        r@[1].0@ == "python"@ && r@[1].1@ == "--version"@,
        r@[2].0@ == "python3"@ && r@[2].1@ == "--version"@,
        r@[3].0@ == "java"@ && r@[3].1@ == "-version"@,
        r@[4].0@ == "flutter"@ && r@[4].1@ == "--version"@,
        r@[5].0@ == "rustc"@ && r@[5].1@ == "--version"@,
        r@[6].0@ == "git"@ && r@[6].1@ == "--version"@,
{
    vec![
        ("node", "--version"),
        ("python", "--version"),
        ("python3", "--version"),
        ("java", "-version"),
        ("flutter", "--version"),
        ("rustc", "--version"),
        ("git", "--version"),
    ]
}

/// Lists the developer tools with the versions that they told: Node.js,
/// Python, Java, Flutter, Rust and Git, in this order.
pub fn get_tool_versions(outputs: &ToolOutputs) -> (r: Vec<ToolVersion>)
    ensures
        tools_view(r@) == tool_list(*outputs),
{
    let python = match version_of(&outputs.python) {
        Some(v) => Some(v),
        None => version_of(&outputs.python3),
    };
    let r = vec![
        tool("Node.js", version_of(&outputs.node), "javascript"),
        tool("Python", python, "code"),
        tool("Java", version_of_java(&outputs.java), "coffee"),
        tool("Flutter", version_of_flutter(&outputs.flutter), "phone_iphone"),
        tool("Rust", version_of(&outputs.rustc), "memory"),
        tool("Git", version_of_git(&outputs.git), "git"),
    ];
    assert(tools_view(r@) =~= tool_list(*outputs));
    r
}

/// How to find out whether a tool is installed.
#[derive(Debug, Clone, PartialEq, Eq)]
pub enum ToolCheck {
    /// The tool is installed where this command, with its one argument,
    /// ends with success.
    Command { program: &'static str, argument: &'static str },
    /// The tool is installed where something exists at one of the paths,
    /// or else where the fallback command ends with success.
    Paths { paths: Vec<&'static str>, fallback: Option<(&'static str, &'static str)> },
    /// The tool is not known, or cannot be had on the platform.
    Never,
}

/// A check as text.
pub enum CheckView {
    Command { program: Seq<char>, argument: Seq<char> },
    Paths { paths: Seq<Seq<char>>, fallback: Option<(Seq<char>, Seq<char>)> },
    Never,
}

impl View for ToolCheck {
    type V = CheckView;

    open spec fn view(&self) -> CheckView {
        match self {
            ToolCheck::Command { program, argument } => CheckView::Command {
                program: program@,
                argument: argument@,
            },
            ToolCheck::Paths { paths, fallback } => CheckView::Paths {
                paths: names(paths@),
                fallback: match fallback {
                    Some((program, argument)) => Some((program@, argument@)),
                    None => None,
                },
            },
            ToolCheck::Never => CheckView::Never,
        }
    }
}

/// How to find out whether the tool named `tool` is installed.
pub open spec fn check_for(tool: Seq<char>, platform: Platform) -> CheckView {
    if tool == "node"@ {
        CheckView::Command { program: "node"@, argument: "--version"@ }
    } else if tool == "python"@ {
        CheckView::Command { program: "python"@, argument: "--version"@ }
    } else if tool == "flutter"@ {
        CheckView::Command { program: "flutter"@, argument: "--version"@ }
    } else if tool == "java"@ {
        CheckView::Command { program: "java"@, argument: "-version"@ }
    } else if tool == "rust"@ || tool == "cargo"@ {
        CheckView::Command { program: "cargo"@, argument: "--version"@ }
    } else if tool == "git"@ {
        CheckView::Command { program: "git"@, argument: "--version"@ }
    } else if tool == "android-studio"@ {
        match platform {
            Platform::Windows => CheckView::Paths {
                paths: seq![
                    "C:\\Program Files\\Android\\Android Studio\\bin\\studio64.exe"@,
                    "C:\\Program Files (x86)\\Android\\Android Studio\\bin\\studio.exe"@,
                ],
                fallback: None,
            },
            Platform::MacOs => CheckView::Paths {
                paths: seq!["/Applications/Android Studio.app"@],
                fallback: None,
            },
            Platform::Linux => CheckView::Paths {
                paths: seq![
                    "/opt/android-studio/bin/studio.sh"@,
                    "/usr/local/android-studio/bin/studio.sh"@,
                ],
                fallback: Some(("android-studio"@, "--version"@)),
            },
        }
    } else if tool == "xcode"@ {
        match platform {
            Platform::MacOs => CheckView::Command { program: "xcode-select"@, argument: "-p"@ },
            _ => CheckView::Never,
        }
    } else {
        CheckView::Never
    }
}

/// How to find out whether the tool named `tool` is installed on
/// `platform`.
pub fn tool_check(tool: &str, platform: Platform) -> (r: ToolCheck)
    ensures
        r@ == check_for(tool@, platform),
{
    if same_text(tool, "node") {
        ToolCheck::Command { program: "node", argument: "--version" }
    } else if same_text(tool, "python") {
        ToolCheck::Command { program: "python", argument: "--version" }
    } else if same_text(tool, "flutter") {
        ToolCheck::Command { program: "flutter", argument: "--version" }
    } else if same_text(tool, "java") {
        ToolCheck::Command { program: "java", argument: "-version" }
    } else if same_text(tool, "rust") || same_text(tool, "cargo") {
        ToolCheck::Command { program: "cargo", argument: "--version" }
    } else if same_text(tool, "git") {
        ToolCheck::Command { program: "git", argument: "--version" }
    } else if same_text(tool, "android-studio") {
        match platform {
            Platform::Windows => {
                let paths = vec![
                    "C:\\Program Files\\Android\\Android Studio\\bin\\studio64.exe",
                    "C:\\Program Files (x86)\\Android\\Android Studio\\bin\\studio.exe",
                ];
                assert(names(paths@) =~= seq![
                    "C:\\Program Files\\Android\\Android Studio\\bin\\studio64.exe"@,
                    "C:\\Program Files (x86)\\Android\\Android Studio\\bin\\studio.exe"@,
                ]);
                ToolCheck::Paths { paths, fallback: None }
            },
            Platform::MacOs => {
                let paths = vec!["/Applications/Android Studio.app"];
                assert(names(paths@) =~= seq!["/Applications/Android Studio.app"@]);
                ToolCheck::Paths { paths, fallback: None }
            },
            Platform::Linux => {
                let paths = vec![
                    "/opt/android-studio/bin/studio.sh",
                    "/usr/local/android-studio/bin/studio.sh",
                ];
                assert(names(paths@) =~= seq![
                    "/opt/android-studio/bin/studio.sh"@,
                    "/usr/local/android-studio/bin/studio.sh"@,
                ]);
                ToolCheck::Paths { paths, fallback: Some(("android-studio", "--version")) }
            },
        }
    } else if same_text(tool, "xcode") {
        match platform {
            Platform::MacOs => ToolCheck::Command { program: "xcode-select", argument: "-p" },
            _ => ToolCheck::Never,
        }
    } else {
        ToolCheck::Never
    }
}

/// Whether something was found at one of the first `n` paths.
pub open spec fn found_among(found: Seq<bool>, n: nat) -> bool {
    exists|i: int| 0 <= i < n && i < found.len() && found[i]
}

/// Whether a tool is installed, from what its check gave: `found` tells
/// for each path of the check whether something exists there, `succeeded`
/// whether the command of the check ran and ended with success.
pub open spec fn installed(check: CheckView, found: Seq<bool>, succeeded: bool) -> bool {
    match check {
        CheckView::Command { .. } => succeeded,
        CheckView::Paths { paths, fallback } => found_among(found, paths.len()) || (fallback
            is Some && succeeded),
        CheckView::Never => false,
    }
}

/// Tells whether a tool is installed, from what its check gave.
pub fn check_tool_installed(check: &ToolCheck, found: &Vec<bool>, succeeded: bool) -> (r: bool)
    ensures
        r == installed(check@, found@, succeeded),
{
    match check {
        ToolCheck::Command { .. } => succeeded,
        ToolCheck::Paths { paths, fallback } => {
            let mut i: usize = 0;
            while i < paths.len() && i < found.len()
                invariant
                    i <= paths.len(),
                    i <= found.len(),
                    !found_among(found@, i as nat),
                    installed(check@, found@, succeeded) == (found_among(
                        found@,
                        paths@.len() as nat,
                    ) || (fallback is Some && succeeded)),
                decreases paths.len() - i,
            {
                if found[i] {
                    assert(found_among(found@, paths@.len()));
                    return true;
                }
                i = i + 1;
            }
            assert(!found_among(found@, paths@.len()));
            fallback.is_some() && succeeded
        },
        ToolCheck::Never => false,
    }
}

} // verus!
