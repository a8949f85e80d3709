//! Starting editors, terminals and package managers: which programs to try
//! with which arguments on which platform, and what to report once they
//! were tried.

use crate::catalog::{Markers, PackageManager};
use crate::classify::{detect_package_manager, package_manager_of};
use crate::text::{
    names, replace_text, replaced, same_text, starts_with_text, texts, to_strings,
};
use crate::tools::Run;
use vstd::prelude::*;
use vstd::string::*;

verus! {

/// The platforms on which programs are started.
#[derive(Debug, Clone, Copy, PartialEq, Eq, Structural)]
pub enum Platform {
    Windows,
    MacOs,
    Linux,
}

/// A program to start, and the arguments to start it with.
#[derive(Debug, Clone, PartialEq, Eq)]
pub struct Launch {
    pub program: String,
    pub args: Vec<String>,
}

/// A launch as text: the program, then its arguments.
pub type LaunchView = (Seq<char>, Seq<Seq<char>>);

impl View for Launch {
    type V = LaunchView;

    open spec fn view(&self) -> LaunchView {
        (self.program@, texts(self.args@))
    }
}

/// The launches as text, in order.
pub open spec fn launches(items: Seq<Launch>) -> Seq<LaunchView> {
    Seq::new(items.len(), |i: int| items[i]@)
}

/// What became of one program that was to be started.
#[derive(Debug, Clone, PartialEq, Eq)]
pub enum Attempt {
    /// The program is named by a full path at which nothing exists; it was
    /// not tried.
    Missing,
    /// The program was started.
    Started,
    /// The program could not be started; `error` says why.
    Failed { error: String },
}

/// The editors that are known by name.
#[derive(Debug, Clone, Copy, PartialEq, Eq, Structural)]
pub enum Ide {
    VsCode,
    Cursor,
    WebStorm,
    Idea,
    Zed,
    AndroidStudio,
    Xcode,
}

/// The editor that a name stands for; none for a name that is not known.
pub open spec fn ide_named(name: Seq<char>) -> Option<Ide> {
    if name == "vscode"@ || name == "code"@ {
        Some(Ide::VsCode)
    } else if name == "cursor"@ {
        Some(Ide::Cursor)
    } else if name == "webstorm"@ {
        Some(Ide::WebStorm)
    } else if name == "idea"@ {
        Some(Ide::Idea)
    } else if name == "zed"@ {
        Some(Ide::Zed)
    } else if name == "android-studio"@ {
        Some(Ide::AndroidStudio)
    } else if name == "xcode"@ {
        Some(Ide::Xcode)
    } else {
        None
    }
}

/// The editor that `name` stands for.
pub fn ide_from_name(name: &str) -> (r: Option<Ide>)
    ensures
        r == ide_named(name@),
{
    if same_text(name, "vscode") || same_text(name, "code") {
        Some(Ide::VsCode)
    } else if same_text(name, "cursor") {
        Some(Ide::Cursor)
    } else if same_text(name, "webstorm") {
        Some(Ide::WebStorm)
    } else if same_text(name, "idea") {
        Some(Ide::Idea)
    } else if same_text(name, "zed") {
        Some(Ide::Zed)
    } else if same_text(name, "android-studio") {
        Some(Ide::AndroidStudio)
    } else if same_text(name, "xcode") {
        Some(Ide::Xcode)
    } else {
        None
    }
}

/// The commands and paths under which an editor is looked for on Windows;
/// `local` is the folder of the applications of the user.
pub open spec fn windows_candidates(ide: Option<Ide>, local: Seq<char>) -> Seq<Seq<char>> {
    match ide {
        Some(Ide::VsCode) => seq![
            "code"@,
            "code.cmd"@,
            local + "\\Microsoft VS Code\\Code.exe"@,
            local + "\\Programs\\Microsoft VS Code\\Code.exe"@,
            "C:\\Program Files\\Microsoft VS Code\\Code.exe"@,
            "C:\\Program Files (x86)\\Microsoft VS Code\\Code.exe"@,
        ],
        Some(Ide::Cursor) => seq![
            "cursor"@,
            "cursor.cmd"@,
            local + "\\Programs\\cursor\\Cursor.exe"@,
            local + "\\cursor\\Cursor.exe"@,
        ],
        Some(Ide::WebStorm) => seq!["webstorm"@, "webstorm64.exe"@],
        Some(Ide::Idea) => seq!["idea"@, "idea64.exe"@],
        Some(Ide::Zed) => seq!["zed"@],
        Some(Ide::AndroidStudio) => seq![
            "C:\\Program Files\\Android\\Android Studio\\bin\\studio64.exe"@,
            "C:\\Program Files (x86)\\Android\\Android Studio\\bin\\studio.exe"@,
        ],
        Some(Ide::Xcode) => Seq::empty(),
        None => seq!["code"@],
    }
}

/// The commands and paths under which an editor is looked for on macOS.
pub open spec fn macos_candidates(ide: Option<Ide>) -> Seq<Seq<char>> {
    match ide {
        Some(Ide::VsCode) => seq![
            "code"@,
            "/Applications/Visual Studio Code.app/Contents/Resources/app/bin/code"@,
            "/usr/local/bin/code"@,
        ],
        Some(Ide::Cursor) => seq![
            "cursor"@,
            "/Applications/Cursor.app/Contents/Resources/app/bin/cursor"@,
            "/usr/local/bin/cursor"@,
        ],
        Some(Ide::WebStorm) => seq![
            "webstorm"@,
            "/Applications/WebStorm.app/Contents/MacOS/webstorm"@,
        ],
        Some(Ide::Idea) => seq![
            "idea"@,
            "/Applications/IntelliJ IDEA.app/Contents/MacOS/idea"@,
            "/Applications/IntelliJ IDEA CE.app/Contents/MacOS/idea"@,
        ],
        Some(Ide::Zed) => seq!["zed"@, "/Applications/Zed.app/Contents/MacOS/zed"@],
        Some(Ide::AndroidStudio) => seq![
            "/Applications/Android Studio.app/Contents/MacOS/studio"@,
        ],
        Some(Ide::Xcode) => seq!["xed"@],
        None => seq!["code"@],
    }
}

/// The commands under which an editor is looked for on Linux, where Xcode
/// is as good as unknown.
pub open spec fn linux_candidates(ide: Option<Ide>) -> Seq<Seq<char>> {
    match ide {
        Some(Ide::VsCode) => seq!["code"@],
        Some(Ide::Cursor) => seq!["cursor"@],
        Some(Ide::WebStorm) => seq!["webstorm"@],
        Some(Ide::Idea) => seq!["idea"@],
        Some(Ide::Zed) => seq!["zed"@],
        Some(Ide::AndroidStudio) => seq!["android-studio"@, "studio.sh"@],
        Some(Ide::Xcode) => seq!["code"@],
        None => seq!["code"@],
    }
}

/// The commands and paths under which the editor named `ide` is looked
/// for, in the order in which they are tried. An unknown editor is looked
/// for as `code`.
pub open spec fn candidates(ide: Seq<char>, platform: Platform, local: Seq<char>) -> Seq<
    Seq<char>,
> {
    match platform {
        Platform::Windows => windows_candidates(ide_named(ide), local),
        Platform::MacOs => macos_candidates(ide_named(ide)),
        Platform::Linux => linux_candidates(ide_named(ide)),
    }
}

fn under(local: &str, rest: &str) -> (r: String)
    ensures
        r@ == local@ + rest@,
{
    let mut path = String::from_str(local);
    path.append(rest);
    path
}

fn windows_ide_candidates(ide: Option<Ide>, local: &str) -> (r: Vec<String>)
    ensures
        texts(r@) == windows_candidates(ide, local@),
{
    let r = match ide {
        Some(Ide::VsCode) => vec![
            String::from_str("code"),
            String::from_str("code.cmd"),
            under(local, "\\Microsoft VS Code\\Code.exe"),
            under(local, "\\Programs\\Microsoft VS Code\\Code.exe"),
            String::from_str("C:\\Program Files\\Microsoft VS Code\\Code.exe"),
            String::from_str("C:\\Program Files (x86)\\Microsoft VS Code\\Code.exe"),
        ],
        Some(Ide::Cursor) => vec![
            String::from_str("cursor"),
            String::from_str("cursor.cmd"),
            under(local, "\\Programs\\cursor\\Cursor.exe"),
            under(local, "\\cursor\\Cursor.exe"),
        ],
        Some(Ide::WebStorm) => vec![
            String::from_str("webstorm"),
            String::from_str("webstorm64.exe"),
        ],
        Some(Ide::Idea) => vec![String::from_str("idea"), String::from_str("idea64.exe")],
        Some(Ide::Zed) => vec![String::from_str("zed")],
        Some(Ide::AndroidStudio) => vec![
            String::from_str("C:\\Program Files\\Android\\Android Studio\\bin\\studio64.exe"),
            String::from_str("C:\\Program Files (x86)\\Android\\Android Studio\\bin\\studio.exe"),
        ],
        Some(Ide::Xcode) => Vec::new(),
        None => vec![String::from_str("code")],
    };
    assert(texts(r@) =~= windows_candidates(ide, local@));
    r
}

fn macos_ide_candidates(ide: Option<Ide>) -> (r: Vec<String>)
    ensures
        texts(r@) == macos_candidates(ide),
{
    let items = match ide {
        Some(Ide::VsCode) => vec![
            "code",
            "/Applications/Visual Studio Code.app/Contents/Resources/app/bin/code",
            "/usr/local/bin/code",
        ],
        Some(Ide::Cursor) => vec![
            "cursor",
            "/Applications/Cursor.app/Contents/Resources/app/bin/cursor",
            "/usr/local/bin/cursor",
        ],
        Some(Ide::WebStorm) => vec![
            "webstorm",
            "/Applications/WebStorm.app/Contents/MacOS/webstorm",
        ],
        Some(Ide::Idea) => vec![
            "idea",
            "/Applications/IntelliJ IDEA.app/Contents/MacOS/idea",
            "/Applications/IntelliJ IDEA CE.app/Contents/MacOS/idea",
        ],
        Some(Ide::Zed) => vec!["zed", "/Applications/Zed.app/Contents/MacOS/zed"],
        Some(Ide::AndroidStudio) => vec!["/Applications/Android Studio.app/Contents/MacOS/studio"],
        Some(Ide::Xcode) => vec!["xed"],
        None => vec!["code"],
    };
    assert(names(items@) =~= macos_candidates(ide));
    to_strings(&items)
}

fn linux_ide_candidates(ide: Option<Ide>) -> (r: Vec<String>)
    ensures
        texts(r@) == linux_candidates(ide),
{
    let items = match ide {
        Some(Ide::VsCode) => vec!["code"],
        Some(Ide::Cursor) => vec!["cursor"],
        Some(Ide::WebStorm) => vec!["webstorm"],
        Some(Ide::Idea) => vec!["idea"],
        Some(Ide::Zed) => vec!["zed"],
        Some(Ide::AndroidStudio) => vec!["android-studio", "studio.sh"],
        Some(Ide::Xcode) => vec!["code"],
        None => vec!["code"],
    };
    assert(names(items@) =~= linux_candidates(ide));
    to_strings(&items)
}

/// The commands and paths under which the editor named `ide` is looked
/// for on `platform`, in the order in which they are tried. `local` is the
/// folder of the applications of the user, which only Windows looks into.
pub fn ide_candidates(ide: &str, platform: Platform, local: &str) -> (r: Vec<String>)
    ensures
        texts(r@) == candidates(ide@, platform, local@),
{
    let known = ide_from_name(ide);
    match platform {
        Platform::Windows => windows_ide_candidates(known, local),
        Platform::MacOs => macos_ide_candidates(known),
        Platform::Linux => linux_ide_candidates(known),
    }
}

/// Whether a candidate names a program by its path: on Windows where it
/// holds a slash of either kind, elsewhere where it begins with a slash. A
/// path is tried only where something exists at it.
pub open spec fn names_a_path(candidate: Seq<char>, platform: Platform) -> bool {
    match platform {
        Platform::Windows => candidate.contains('\\') || candidate.contains('/'),
        _ => candidate.len() > 0 && candidate[0] == '/',
    }
}

/// Whether a candidate names a program by its path.
pub fn is_full_path(candidate: &str, platform: Platform) -> (r: bool)
    ensures
        r == names_a_path(candidate@, platform),
{
    match platform {
        Platform::Windows => {
            let mut found = false;
            for c in it: candidate.chars()
                invariant
                    it.seq() == candidate@,
                    found == (candidate@.take(it.index()).contains('\\') || candidate@.take(
                        it.index(),
                    ).contains('/')),
            {
                let ghost before = candidate@.take(it.index());
                let ghost after = candidate@.take(it.index() + 1);
                assert(after =~= before.push(c));
                assert(forall|x: char| after.contains(x) <==> (before.contains(x) || x == c)) by {
                    assert forall|x: char| after.contains(x) implies (before.contains(x) || x
                        == c) by {
                        let k = choose|k: int| 0 <= k < after.len() && after[k] == x;
                        if k < before.len() {
                            assert(before[k] == x);
                        }
                    }
                    assert forall|x: char| (before.contains(x) || x == c) implies after.contains(
                        x,
                    ) by {
                        if x == c {
                            assert(after[after.len() - 1] == c);
                        } else {
                            let k = choose|k: int| 0 <= k < before.len() && before[k] == x;
                            assert(after[k] == x);
                        }
                    }
                }
                if c == '\\' || c == '/' {
                    found = true;
                }
            }
            assert(candidate@.take(candidate@.len() as int) =~= candidate@);
            found
        },
        _ => {
            proof {
                reveal_strlit("/");
            }
            let r = starts_with_text(candidate, "/");
            assert(r == (candidate@.len() > 0 && candidate@[0] == '/')) by {
                if candidate@.len() > 0 {
                    assert(candidate@.subrange(0, 1)[0] == candidate@[0]);
                    if candidate@[0] == '/' {
                        assert(candidate@.subrange(0, 1) =~= "/"@);
                    }
                }
            }
            r
        },
    }
}

/// The error of the last program that could not be started; the empty text
/// where every program started or was missing.
pub open spec fn last_error(attempts: Seq<Attempt>) -> Seq<char>
    decreases attempts.len(),
{
    if attempts.len() == 0 {
        Seq::empty()
    } else {
        match attempts.last() {
            Attempt::Failed { error } => error@,
            _ => last_error(attempts.drop_last()),
        }
    }
}

/// Whether one of the programs started.
pub open spec fn any_started(attempts: Seq<Attempt>) -> bool {
    exists|i: int| 0 <= i < attempts.len() && attempts[i] is Started
}

/// What opening an editor reports: success where a candidate started; else
/// the error of the last candidate that failed, with the advice to install
/// the editor.
pub open spec fn ide_report(attempts: Seq<Attempt>) -> Result<(), Seq<char>> {
    if any_started(attempts) {
        Ok(())
    } else {
        Err("Failed to open IDE: "@ + last_error(attempts) + ". Make sure the IDE is installed."@)
    }
}

/// Reports on the opening of a project in an editor; `attempts` tells what
/// became of the candidates that were tried, in their order.
pub fn open_in_ide(attempts: &Vec<Attempt>) -> (r: Result<(), String>)
    ensures
        match r {
            Ok(_) => ide_report(attempts@) == Ok::<(), Seq<char>>(()),
            Err(message) => ide_report(attempts@) == Err::<(), Seq<char>>(message@),
        },
{
    let (started, error) = scan_attempts(attempts);
    if started {
        return Ok(());
    }
    let mut message = String::from_str("Failed to open IDE: ");
    message.append(error.as_str());
    message.append(". Make sure the IDE is installed.");
    Err(message)
}

fn launch(program: &str, args: Vec<String>) -> (r: Launch)
    ensures
        r@ == (program@, texts(args@)),
{
    Launch { program: String::from_str(program), args }
}

fn glue(a: &str, b: &str, c: &str) -> (r: String)
    ensures
        r@ == a@ + b@ + c@,
{
    let mut text = String::from_str(a);
    text.append(b);
    text.append(c);
    text
}

/// The shell line that runs `command` in `dir` on Windows.
pub open spec fn windows_line(dir: Seq<char>, command: Seq<char>) -> Seq<char> {
    "cd /d \""@ + dir + "\" && "@ + command
}

/// The shell line that runs `command` in `dir` elsewhere.
pub open spec fn unix_line(dir: Seq<char>, command: Seq<char>) -> Seq<char> {
    "cd '"@ + dir + "' && "@ + command
}

/// The script that has the macOS terminal run a shell line.
pub open spec fn terminal_script(line: Seq<char>) -> Seq<char> {
    "tell app \"Terminal\" to do script \""@ + line + "\""@
}

/// The ways to run `command` in `dir` in a new terminal window, in the
/// order in which they are tried: on Windows the new terminal, then the
/// old one; on macOS the terminal by script; on Linux three emulators,
/// each left open on a shell.
pub open spec fn terminal_launches(platform: Platform, dir: Seq<char>, command: Seq<char>) -> Seq<
    LaunchView,
> {
    match platform {
        Platform::Windows => seq![
            ("cmd"@, seq!["/c"@, "wt"@, "-d"@, dir, "cmd"@, "/k"@, command]),
            ("cmd"@, seq!["/c"@, "start"@, "cmd"@, "/k"@, windows_line(dir, command)]),
        ],
        Platform::MacOs => seq![
            ("osascript"@, seq!["-e"@, terminal_script(unix_line(dir, command))]),
        ],
        Platform::Linux => {
            let line = unix_line(dir, command) + "; exec bash"@;
            seq![
                ("gnome-terminal"@, seq!["--"@, "bash"@, "-c"@, line]),
                ("konsole"@, seq!["-e"@, "bash"@, "-c"@, line]),
                ("xterm"@, seq!["-e"@, "bash"@, "-c"@, line]),
            ]
        },
    }
}

/// The ways to run `command` in `dir` in a new terminal window on
/// `platform`, in the order in which they are tried.
pub fn run_in_terminal(platform: Platform, dir: &str, command: &str) -> (r: Vec<Launch>)
    ensures
        launches(r@) == terminal_launches(platform, dir@, command@),
{
    match platform {
        Platform::Windows => {
            let mut line = glue("cd /d \"", dir, "\" && ");
            line.append(command);
            let first = vec![
                String::from_str("/c"),
                String::from_str("wt"),
                String::from_str("-d"),
                String::from_str(dir),
                String::from_str("cmd"),
                String::from_str("/k"),
                String::from_str(command),
            ];
            assert(texts(first@) =~= seq!["/c"@, "wt"@, "-d"@, dir@, "cmd"@, "/k"@, command@]);
            let second = vec![
                String::from_str("/c"),
                String::from_str("start"),
                String::from_str("cmd"),
                String::from_str("/k"),
                line,
            ];
            assert(texts(second@) =~= seq![
                "/c"@,
                "start"@,
                "cmd"@,
                "/k"@,
                windows_line(dir@, command@),
            ]);
            let r = vec![launch("cmd", first), launch("cmd", second)];
            assert(launches(r@) =~= terminal_launches(platform, dir@, command@));
            r
        },
        Platform::MacOs => {
            let mut line = glue("cd '", dir, "' && ");
            line.append(command);
            let script = glue("tell app \"Terminal\" to do script \"", line.as_str(), "\"");
            let args = vec![String::from_str("-e"), script];
            assert(texts(args@) =~= seq!["-e"@, terminal_script(unix_line(dir@, command@))]);
            let r = vec![launch("osascript", args)];
            assert(launches(r@) =~= terminal_launches(platform, dir@, command@));
            r
        },
        Platform::Linux => {
            let mut line = glue("cd '", dir, "' && ");
            line.append(command);
            line.append("; exec bash");
            let ghost shown = unix_line(dir@, command@) + "; exec bash"@;
            let gnome = vec![
                String::from_str("--"),
                String::from_str("bash"),
                String::from_str("-c"),
                line.clone(),
            ];
            assert(texts(gnome@) =~= seq!["--"@, "bash"@, "-c"@, shown]);
            let konsole = vec![
                String::from_str("-e"),
                String::from_str("bash"),
                String::from_str("-c"),
                line.clone(),
            ];
            assert(texts(konsole@) =~= seq!["-e"@, "bash"@, "-c"@, shown]);
            let xterm = vec![
                String::from_str("-e"),
                String::from_str("bash"),
                String::from_str("-c"),
                line,
            ];
            assert(texts(xterm@) =~= seq!["-e"@, "bash"@, "-c"@, shown]);
            let r = vec![
                launch("gnome-terminal", gnome),
                launch("konsole", konsole),
                launch("xterm", xterm),
            ];
            assert(launches(r@) =~= terminal_launches(platform, dir@, command@));
            r
        },
    }
}

/// The ways to open a terminal window in `dir`, in the order in which they
/// are tried.
pub open spec fn plain_terminal_launches(platform: Platform, dir: Seq<char>) -> Seq<LaunchView> {
    match platform {
        Platform::Windows => seq![
            ("cmd"@, seq!["/c"@, "wt"@, "-d"@, dir]),
            ("cmd"@, seq!["/c"@, "start"@, "cmd"@, "/k"@, "cd /d \""@ + dir + "\""@]),
        ],
        Platform::MacOs => seq![("open"@, seq!["-a"@, "Terminal"@, dir])],
        Platform::Linux => seq![
            ("gnome-terminal"@, seq!["--working-directory"@, dir]),
            ("konsole"@, seq!["--working-directory"@, dir]),
            ("xterm"@, seq!["--working-directory"@, dir]),
        ],
    }
}

fn in_working_directory(program: &str, dir: &str) -> (r: Launch)
    ensures
        r@ == (program@, seq!["--working-directory"@, dir@]),
{
    let args = vec![String::from_str("--working-directory"), String::from_str(dir)];
    assert(texts(args@) =~= seq!["--working-directory"@, dir@]);
    launch(program, args)
}

/// The ways to open a terminal window in `dir` on `platform`, in the order
/// in which they are tried.
pub fn terminal_windows(platform: Platform, dir: &str) -> (r: Vec<Launch>)
    ensures
        launches(r@) == plain_terminal_launches(platform, dir@),
{
    match platform {
        Platform::Windows => {
            let first = vec![
                String::from_str("/c"),
                String::from_str("wt"),
                String::from_str("-d"),
                String::from_str(dir),
            ];
            assert(texts(first@) =~= seq!["/c"@, "wt"@, "-d"@, dir@]);
            let second = vec![
                String::from_str("/c"),
                String::from_str("start"),
                String::from_str("cmd"),
                String::from_str("/k"),
                glue("cd /d \"", dir, "\""),
            ];
            assert(texts(second@) =~= seq![
                "/c"@,
                "start"@,
                "cmd"@,
                "/k"@,
                "cd /d \""@ + dir@ + "\""@,
            ]);
            let r = vec![launch("cmd", first), launch("cmd", second)];
            assert(launches(r@) =~= plain_terminal_launches(platform, dir@));
            r
        },
        Platform::MacOs => {
            let args = vec![
                String::from_str("-a"),
                String::from_str("Terminal"),
                String::from_str(dir),
            ];
            assert(texts(args@) =~= seq!["-a"@, "Terminal"@, dir@]);
            let r = vec![launch("open", args)];
            assert(launches(r@) =~= plain_terminal_launches(platform, dir@));
            r
        },
        Platform::Linux => {
            let r = vec![
                in_working_directory("gnome-terminal", dir),
                in_working_directory("konsole", dir),
                in_working_directory("xterm", dir),
            ];
            assert(launches(r@) =~= plain_terminal_launches(platform, dir@));
            r
        },
    }
}

/// What starting something in a terminal reports. It succeeds with `done`
/// where one of the ways started. Where none did, Linux has no terminal
/// emulator, and the other platforms give the error of the last way that
/// failed behind `failure`.
pub open spec fn terminal_report(
    platform: Platform,
    attempts: Seq<Attempt>,
    failure: Seq<char>,
    done: Seq<char>,
) -> Result<Seq<char>, Seq<char>> {
    if any_started(attempts) {
        Ok(done)
    } else if platform == Platform::Linux {
        Err("No terminal emulator found"@)
    } else {
        Err(failure + last_error(attempts))
    }
}

fn scan_attempts(attempts: &Vec<Attempt>) -> (r: (bool, String))
    ensures
        r.0 == any_started(attempts@),
        !r.0 ==> r.1@ == last_error(attempts@),
{
    let mut error = String::new();
    let mut i: usize = 0;
    while i < attempts.len()
        invariant
            i <= attempts.len(),
            !any_started(attempts@.take(i as int)),
            error@ == last_error(attempts@.take(i as int)),
        decreases attempts.len() - i,
    {
        let ghost before = attempts@.take(i as int);
        let ghost after = attempts@.take(i + 1);
        assert(after.drop_last() =~= before);
        match &attempts[i] {
            Attempt::Started => {
                assert(attempts@[i as int] is Started);
                return (true, error);
            },
            Attempt::Failed { error: e } => {
                error = e.clone();
            },
            Attempt::Missing => {},
        }
        assert(!any_started(after)) by {
            if any_started(after) {
                let k = choose|k: int| 0 <= k < after.len() && after[k] is Started;
                if k < i {
                    assert(before[k] is Started);
                }
            }
        }
        i = i + 1;
    }
    assert(attempts@.take(i as int) =~= attempts@);
    (false, error)
}

/// Reports on something that was to start in a terminal; `attempts` tells
/// what became of the ways that were tried, in their order.
pub fn report_terminal(platform: Platform, attempts: &Vec<Attempt>, failure: &str, done: String) -> (r:
    Result<String, String>)
    ensures
        match r {
            Ok(message) => terminal_report(platform, attempts@, failure@, done@) == Ok::<
                Seq<char>,
                Seq<char>,
            >(message@),
            Err(message) => terminal_report(platform, attempts@, failure@, done@) == Err::<
                Seq<char>,
                Seq<char>,
            >(message@),
        },
{
    let (started, error) = scan_attempts(attempts);
    if started {
        Ok(done)
    } else if platform == Platform::Linux {
        Err(String::from_str("No terminal emulator found"))
    } else {
        let mut message = String::from_str(failure);
        message.append(error.as_str());
        Err(message)
    }
}

/// The package manager to use, by name: the given one; else the one that
/// the markers show; else npm.
pub open spec fn chosen_manager(given: Option<Seq<char>>, m: Markers) -> Seq<char> {
    match given {
        Some(name) => name,
        None => match package_manager_of(m) {
            Some(pm) => pm.label(),
            None => "npm"@,
        },
    }
}

/// The name of the package manager to use.
pub fn choose_package_manager(given: Option<&str>, markers: &Markers) -> (r: String)
    ensures
        r@ == chosen_manager(
            match given {
                Some(name) => Some(name@),
                None => None,
            },
            *markers,
        ),
{
    match given {
        Some(name) => String::from_str(name),
        None => match detect_package_manager(markers) {
            Some(pm) => String::from_str(pm.name()),
            None => String::from_str("npm"),
        },
    }
}

/// The command that installs the dependencies of a project: that of the
/// package manager named, or of npm where the name is not known.
pub open spec fn install_line(manager: Seq<char>) -> Seq<char> {
    PackageManager::labelled(manager).label() + " install"@
}

/// The command that runs a script of the manifest.
pub open spec fn script_line(manager: Seq<char>, script: Seq<char>) -> Seq<char> {
    match PackageManager::labelled(manager) {
        PackageManager::Yarn => "yarn "@ + script,
        PackageManager::Pnpm => "pnpm run "@ + script,
        PackageManager::Bun => "bun run "@ + script,
        PackageManager::Npm => "npm run "@ + script,
    }
}

/// The command that installs the dependencies of a project.
pub fn install_command(manager: &str) -> (r: String)
    ensures
        r@ == install_line(manager@),
{
    let mut line = String::from_str(PackageManager::from_name(manager).name());
    line.append(" install");
    line
}

/// The command that runs the script `script` of the manifest.
pub fn script_command(manager: &str, script: &str) -> (r: String)
    ensures
        r@ == script_line(manager@, script@),
{
    let mut line = match PackageManager::from_name(manager) {
        PackageManager::Yarn => String::from_str("yarn "),
        PackageManager::Pnpm => String::from_str("pnpm run "),
        PackageManager::Bun => String::from_str("bun run "),
        PackageManager::Npm => String::from_str("npm run "),
    };
    line.append(script);
    line
}

/// What installing dependencies reports.
pub open spec fn install_report(platform: Platform, manager: Seq<char>, attempts: Seq<Attempt>) -> Result<
    Seq<char>,
    Seq<char>,
> {
    terminal_report(
        platform,
        attempts,
        "Failed to run "@ + PackageManager::labelled(manager).label() + ": "@,
        "Installing dependencies using "@ + manager + "..."@,
    )
}

/// Reports on the installing of dependencies with the package manager
/// named `manager`; `attempts` tells what became of the ways of
/// `run_in_terminal` that were tried, in their order.
pub fn install_dependencies(platform: Platform, manager: &str, attempts: &Vec<Attempt>) -> (r: Result<
    String,
    String,
>)
    ensures
        match r {
            Ok(message) => install_report(platform, manager@, attempts@) == Ok::<
                Seq<char>,
                Seq<char>,
            >(message@),
            Err(message) => install_report(platform, manager@, attempts@) == Err::<
                Seq<char>,
                Seq<char>,
            >(message@),
        },
{
    let failure = glue("Failed to run ", PackageManager::from_name(manager).name(), ": ");
    let done = glue("Installing dependencies using ", manager, "...");
    report_terminal(platform, attempts, failure.as_str(), done)
}

/// What running a script reports.
pub open spec fn script_report(
    platform: Platform,
    manager: Seq<char>,
    script: Seq<char>,
    attempts: Seq<Attempt>,
) -> Result<Seq<char>, Seq<char>> {
    terminal_report(
        platform,
        attempts,
        "Failed to run script: "@,
        "Running "@ + script_line(manager, script) + "..."@,
    )
}

/// Reports on the running of the script `script` with the package manager
/// named `manager`; `attempts` tells what became of the ways of
/// `run_in_terminal` that were tried, in their order.
pub fn run_script(platform: Platform, manager: &str, script: &str, attempts: &Vec<Attempt>) -> (r:
    Result<String, String>)
    ensures
        match r {
            Ok(message) => script_report(platform, manager@, script@, attempts@) == Ok::<
                Seq<char>,
                Seq<char>,
            >(message@),
            Err(message) => script_report(platform, manager@, script@, attempts@) == Err::<
                Seq<char>,
                Seq<char>,
            >(message@),
        },
{
    let line = script_command(manager, script);
    let done = glue("Running ", line.as_str(), "...");
    report_terminal(platform, attempts, "Failed to run script: ", done)
}

/// Reports on the opening of a terminal window; `attempts` tells what
/// became of the ways of `terminal_windows` that were tried, in their
/// order.
pub fn open_terminal(platform: Platform, attempts: &Vec<Attempt>) -> (r: Result<(), String>)
    ensures
        match r {
            Ok(_) => terminal_report(
                platform,
                attempts@,
                "Failed to open terminal: "@,
                Seq::empty(),
            ) is Ok,
            Err(message) => terminal_report(
                platform,
                attempts@,
                "Failed to open terminal: "@,
                Seq::empty(),
            ) == Err::<Seq<char>, Seq<char>>(message@),
        },
{
    match report_terminal(platform, attempts, "Failed to open terminal: ", String::new()) {
        Ok(_) => Ok(()),
        Err(message) => Err(message),
    }
}

/// The command that creates a project: `command` with the name of the
/// project in every place that `{name}` marks.
pub open spec fn creation_line(command: Seq<char>, name: Seq<char>) -> Seq<char> {
    replaced(command, "{name}"@, name)
}

/// The command that creates the project `name`.
pub fn creation_command(command: &str, name: &str) -> (r: String)
    ensures
        r@ == creation_line(command@, name@),
{
    replace_text(command, "{name}", name)
}

/// Reports on the creating of a project in a terminal: the path of the
/// project where a way started. `attempts` tells what became of the ways
/// of `run_in_terminal` that were tried, in their order.
pub fn create_project_in_terminal(platform: Platform, project_path: String, attempts: &Vec<Attempt>) -> (r:
    Result<String, String>)
    ensures
        match r {
            Ok(message) => terminal_report(
                platform,
                attempts@,
                "Failed to create project: "@,
                project_path@,
            ) == Ok::<Seq<char>, Seq<char>>(message@),
            Err(message) => terminal_report(
                platform,
                attempts@,
                "Failed to create project: "@,
                project_path@,
            ) == Err::<Seq<char>, Seq<char>>(message@),
        },
{
    report_terminal(platform, attempts, "Failed to create project: ", project_path)
}

/// The program and the arguments that create a project from a template;
/// none for a template that is not known.
pub open spec fn template_launch(template: Seq<char>, name: Seq<char>) -> Option<LaunchView> {
    if template == "vite-react"@ {
        Some(("npm"@, seq!["create"@, "vite@latest"@, name, "--"@, "--template"@, "react-ts"@]))
    } else if template == "vite-vue"@ {
        Some(("npm"@, seq!["create"@, "vite@latest"@, name, "--"@, "--template"@, "vue-ts"@]))
    } else if template == "nextjs"@ {
        Some(
            ("npx"@, seq!["create-next-app@latest"@, name, "--typescript"@, "--eslint"@, "--app"@]),
        )
    } else if template == "nuxt"@ {
        Some(("npx"@, seq!["nuxi@latest"@, "init"@, name]))
    } else if template == "express"@ {
        Some(("npx"@, seq!["express-generator"@, name]))
    } else if template == "tauri"@ {
        Some(("npm"@, seq!["create"@, "tauri-app@latest"@, name]))
    } else {
        None
    }
}

/// The program and the arguments that create the project `name` from
/// `template`; for an unknown template the error that says so.
pub fn template_command(template: &str, name: &str) -> (r: Result<Launch, String>)
    ensures
        match r {
            Ok(found) => template_launch(template@, name@) == Some(found@),
            Err(message) => template_launch(template@, name@) is None && message@
                == "Unknown template: "@ + template@,
        },
{
    if same_text(template, "vite-react") || same_text(template, "vite-vue") {
        let flavour = if same_text(template, "vite-react") {
            "react-ts"
        } else {
            "vue-ts"
        };
        let args = vec![
            String::from_str("create"),
            String::from_str("vite@latest"),
            String::from_str(name),
            String::from_str("--"),
            String::from_str("--template"),
            String::from_str(flavour),
        ];
        assert(texts(args@) =~= seq![
            "create"@,
            "vite@latest"@,
            name@,
            "--"@,
            "--template"@,
            flavour@,
        ]);
        Ok(launch("npm", args))
    } else if same_text(template, "nextjs") {
        let args = vec![
            String::from_str("create-next-app@latest"),
            String::from_str(name),
            String::from_str("--typescript"),
            String::from_str("--eslint"),
            String::from_str("--app"),
        ];
        assert(texts(args@) =~= seq![
            "create-next-app@latest"@,
            name@,
            "--typescript"@,
            "--eslint"@,
            "--app"@,
        ]);
        Ok(launch("npx", args))
    } else if same_text(template, "nuxt") {
        let args = vec![
            String::from_str("nuxi@latest"),
            String::from_str("init"),
            String::from_str(name),
        ];
        assert(texts(args@) =~= seq!["nuxi@latest"@, "init"@, name@]);
        Ok(launch("npx", args))
    } else if same_text(template, "express") {
        let args = vec![String::from_str("express-generator"), String::from_str(name)];
        assert(texts(args@) =~= seq!["express-generator"@, name@]);
        Ok(launch("npx", args))
    } else if same_text(template, "tauri") {
        let args = vec![
            String::from_str("create"),
            String::from_str("tauri-app@latest"),
            String::from_str(name),
        ];
        assert(texts(args@) =~= seq!["create"@, "tauri-app@latest"@, name@]);
        Ok(launch("npm", args))
    } else {
        let mut message = String::from_str("Unknown template: ");
        message.append(template);
        Err(message)
    }
}

/// What creating a project from a template reports: the path of the
/// project where the command succeeded or the project exists all the same.
pub open spec fn template_report(run: Run, created: bool, project_path: Seq<char>) -> Result<
    Seq<char>,
    Seq<char>,
> {
    match run {
        Run::NotStarted { error } => Err("Failed to create project: "@ + error@),
        Run::Finished { output } => if output.success || created {
            Ok(project_path)
        } else {
            Err("Project creation failed: "@ + output.stderr@)
        },
    }
}

/// Reports on the creating of a project from a template; `created` tells
/// whether the project exists afterwards.
pub fn create_project_from_template(run: &Run, created: bool, project_path: String) -> (r: Result<
    String,
    String,
>)
    ensures
        match r {
            Ok(message) => template_report(*run, created, project_path@) == Ok::<
                Seq<char>,
                Seq<char>,
            >(message@),
            Err(message) => template_report(*run, created, project_path@) == Err::<
                Seq<char>,
                Seq<char>,
            >(message@),
        },
{
    match run {
        Run::NotStarted { error } => {
            let mut message = String::from_str("Failed to create project: ");
            message.append(error.as_str());
            Err(message)
        },
        Run::Finished { output } => {
            if output.success || created {
                Ok(project_path)
            } else {
                let mut message = String::from_str("Project creation failed: ");
                message.append(output.stderr.as_str());
                Err(message)
            }
        },
    }
}

/// The program that shows a folder in the file manager of the platform.
pub open spec fn file_manager(platform: Platform) -> Seq<char> {
    match platform {
        Platform::Windows => "explorer"@,
        Platform::MacOs => "open"@,
        Platform::Linux => "xdg-open"@,
    }
}

/// What the file manager of the platform is called where it fails.
pub open spec fn file_manager_failure(platform: Platform) -> Seq<char> {
    match platform {
        Platform::Windows => "Failed to open explorer: "@,
        Platform::MacOs => "Failed to open Finder: "@,
        Platform::Linux => "Failed to open file manager: "@,
    }
}

/// The way to show the folder at `path` in the file manager.
pub fn explorer_launch(platform: Platform, path: &str) -> (r: Launch)
    ensures
        r@ == (file_manager(platform), seq![path@]),
{
    let program = match platform {
        Platform::Windows => "explorer",
        Platform::MacOs => "open",
        Platform::Linux => "xdg-open",
    };
    let args = vec![String::from_str(path)];
    assert(texts(args@) =~= seq![path@]);
    launch(program, args)
}

/// Reports on the showing of a folder in the file manager.
pub fn reveal_in_explorer(platform: Platform, attempt: &Attempt) -> (r: Result<(), String>)
    ensures
        match attempt {
            Attempt::Failed { error } => r matches Err(message) && message@
                == file_manager_failure(platform) + error@,
            _ => r is Ok,
        },
{
    match attempt {
        Attempt::Failed { error } => {
            let mut message = String::from_str(
                match platform {
                    Platform::Windows => "Failed to open explorer: ",
                    Platform::MacOs => "Failed to open Finder: ",
                    Platform::Linux => "Failed to open file manager: ",
                },
            );
            message.append(error.as_str());
            Err(message)
        },
        _ => Ok(()),
    }
}

/// The commands under which the quick-access menu looks for an editor:
/// Cursor where it is asked for, else Visual Studio Code.
pub open spec fn quick_candidates(ide: Seq<char>, platform: Platform) -> Seq<Seq<char>> {
    let cursor = ide == "cursor"@;
    match platform {
        Platform::Windows => if cursor {
            seq!["cursor"@, "cursor.cmd"@]
        } else {
            seq!["code"@, "code.cmd"@]
        },
        Platform::MacOs => if cursor {
            seq!["cursor"@, "/Applications/Cursor.app/Contents/Resources/app/bin/cursor"@]
        } else {
            seq![
                "code"@,
                "/Applications/Visual Studio Code.app/Contents/Resources/app/bin/code"@,
            ]
        },
        Platform::Linux => if cursor {
            seq!["cursor"@]
        } else {
            seq!["code"@]
        },
    }
}

/// The commands with which the quick-access menu opens a project in an
/// editor, in the order in which they are tried until one starts.
pub fn open_project_in_ide_from_tray(ide: &str, platform: Platform) -> (r: Vec<&'static str>)
    ensures
        names(r@) == quick_candidates(ide@, platform),
{
    let cursor = same_text(ide, "cursor");
    let r = match platform {
        Platform::Windows => if cursor {
            vec!["cursor", "cursor.cmd"]
        } else {
            vec!["code", "code.cmd"]
        },
        Platform::MacOs => if cursor {
            vec!["cursor", "/Applications/Cursor.app/Contents/Resources/app/bin/cursor"]
        } else {
            vec!["code", "/Applications/Visual Studio Code.app/Contents/Resources/app/bin/code"]
        },
        Platform::Linux => if cursor {
            vec!["cursor"]
        } else {
            vec!["code"]
        },
    };
    assert(names(r@) =~= quick_candidates(ide@, platform));
    r
}

} // verus!
