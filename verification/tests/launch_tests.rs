use devlaunch::catalog::{Marker, Markers};
use devlaunch::git::{git_fetch, git_pull};
use devlaunch::launch::{
    choose_package_manager, create_project_from_template, create_project_in_terminal,
    creation_command, explorer_launch, ide_candidates, ide_from_name,
    install_command, install_dependencies, is_full_path, open_in_ide,
    open_project_in_ide_from_tray, open_terminal, reveal_in_explorer, run_in_terminal,
    run_script, script_command, template_command, terminal_windows, Attempt, Ide, Launch,
    Platform,
};
use devlaunch::tools::{CommandOutput, Run};

fn failed(error: &str) -> Attempt {
    Attempt::Failed { error: error.to_string() }
}

fn launch(program: &str, args: &[&str]) -> Launch {
    Launch { program: program.to_string(), args: args.iter().map(|a| a.to_string()).collect() }
}

fn finished(success: bool, stdout: &str, stderr: &str) -> Run {
    Run::Finished {
        output: CommandOutput { success, stdout: stdout.to_string(), stderr: stderr.to_string() },
    }
}

#[test]
fn editors_are_known_by_name() {
    assert_eq!(ide_from_name("vscode"), Some(Ide::VsCode));
    assert_eq!(ide_from_name("code"), Some(Ide::VsCode));
    assert_eq!(ide_from_name("android-studio"), Some(Ide::AndroidStudio));
    assert_eq!(ide_from_name("emacs"), None);
}

#[test]
fn windows_looks_for_editors_below_the_local_folder() {
    assert_eq!(
        ide_candidates("vscode", Platform::Windows, "C:\\Users\\me\\AppData\\Local"),
        vec![
            "code",
            "code.cmd",
            "C:\\Users\\me\\AppData\\Local\\Microsoft VS Code\\Code.exe",
            "C:\\Users\\me\\AppData\\Local\\Programs\\Microsoft VS Code\\Code.exe",
            "C:\\Program Files\\Microsoft VS Code\\Code.exe",
            "C:\\Program Files (x86)\\Microsoft VS Code\\Code.exe",
        ]
    );
    assert_eq!(
        ide_candidates("cursor", Platform::Windows, ""),
        vec!["cursor", "cursor.cmd", "\\Programs\\cursor\\Cursor.exe", "\\cursor\\Cursor.exe"]
    );
    assert_eq!(ide_candidates("xcode", Platform::Windows, "x"), Vec::<String>::new());
    assert_eq!(ide_candidates("webstorm", Platform::Windows, "x"), vec!["webstorm", "webstorm64.exe"]);
}

#[test]
fn macos_looks_for_editors_among_the_applications() {
    assert_eq!(
        ide_candidates("idea", Platform::MacOs, "ignored"),
        vec![
            "idea",
            "/Applications/IntelliJ IDEA.app/Contents/MacOS/idea",
            "/Applications/IntelliJ IDEA CE.app/Contents/MacOS/idea",
        ]
    );
    assert_eq!(ide_candidates("xcode", Platform::MacOs, ""), vec!["xed"]);
    assert_eq!(
        ide_candidates("zed", Platform::MacOs, ""),
        vec!["zed", "/Applications/Zed.app/Contents/MacOS/zed"]
    );
}

#[test]
fn linux_looks_for_editors_by_command() {
    assert_eq!(ide_candidates("android-studio", Platform::Linux, ""), vec!["android-studio", "studio.sh"]);
    assert_eq!(ide_candidates("xcode", Platform::Linux, ""), vec!["code"]);
    assert_eq!(ide_candidates("zed", Platform::Linux, ""), vec!["zed"]);
}

#[test]
fn an_unknown_editor_is_looked_for_as_code() {
    for platform in [Platform::Windows, Platform::MacOs, Platform::Linux] {
        assert_eq!(ide_candidates("notepad", platform, "x"), vec!["code"]);
    }
}

#[test]
fn full_paths_are_told_by_their_slashes() {
    assert!(is_full_path("C:\\Program Files\\x.exe", Platform::Windows));
    assert!(is_full_path("bin/code", Platform::Windows));
    assert!(!is_full_path("code.cmd", Platform::Windows));
    assert!(!is_full_path("", Platform::Windows));
    assert!(is_full_path("/usr/local/bin/code", Platform::MacOs));
    assert!(!is_full_path("bin/code", Platform::MacOs));
    assert!(!is_full_path("code", Platform::Linux));
    assert!(!is_full_path("", Platform::Linux));
    assert!(is_full_path("/", Platform::Linux));
}

#[test]
fn opening_an_editor_succeeds_with_the_first_that_starts() {
    assert_eq!(open_in_ide(&vec![failed("a"), Attempt::Missing, Attempt::Started]), Ok(()));
    assert_eq!(open_in_ide(&vec![Attempt::Started]), Ok(()));
}

#[test]
fn opening_an_editor_fails_with_the_last_error() {
    assert_eq!(
        open_in_ide(&vec![failed("first"), failed("second"), Attempt::Missing]),
        Err("Failed to open IDE: second. Make sure the IDE is installed.".to_string())
    );
    assert_eq!(
        open_in_ide(&vec![]),
        Err("Failed to open IDE: . Make sure the IDE is installed.".to_string())
    );
}

#[test]
fn windows_runs_commands_in_the_new_terminal_then_the_old() {
    assert_eq!(
        run_in_terminal(Platform::Windows, "C:\\work", "npm install"),
        vec![
            launch("cmd", &["/c", "wt", "-d", "C:\\work", "cmd", "/k", "npm install"]),
            launch("cmd", &["/c", "start", "cmd", "/k", "cd /d \"C:\\work\" && npm install"]),
        ]
    );
}

#[test]
fn macos_runs_commands_by_script() {
    assert_eq!(
        run_in_terminal(Platform::MacOs, "/work", "yarn dev"),
        vec![launch(
            "osascript",
            &["-e", "tell app \"Terminal\" to do script \"cd '/work' && yarn dev\""]
        )]
    );
}

#[test]
fn linux_runs_commands_in_three_emulators() {
    let line = "cd '/work' && pnpm run build; exec bash";
    assert_eq!(
        run_in_terminal(Platform::Linux, "/work", "pnpm run build"),
        vec![
            launch("gnome-terminal", &["--", "bash", "-c", line]),
            launch("konsole", &["-e", "bash", "-c", line]),
            launch("xterm", &["-e", "bash", "-c", line]),
        ]
    );
}

#[test]
fn terminal_windows_by_platform() {
    assert_eq!(
        terminal_windows(Platform::Windows, "C:\\w"),
        vec![
            launch("cmd", &["/c", "wt", "-d", "C:\\w"]),
            launch("cmd", &["/c", "start", "cmd", "/k", "cd /d \"C:\\w\""]),
        ]
    );
    assert_eq!(terminal_windows(Platform::MacOs, "/w"), vec![launch("open", &["-a", "Terminal", "/w"])]);
    assert_eq!(
        terminal_windows(Platform::Linux, "/w"),
        vec![
            launch("gnome-terminal", &["--working-directory", "/w"]),
            launch("konsole", &["--working-directory", "/w"]),
            launch("xterm", &["--working-directory", "/w"]),
        ]
    );
}

#[test]
fn the_package_manager_is_given_or_detected_or_npm() {
    let yarn = Markers::none().record(Marker::YarnLock, true);
    assert_eq!(choose_package_manager(Some("bun"), &yarn), "bun");
    assert_eq!(choose_package_manager(Some("other"), &yarn), "other");
    assert_eq!(choose_package_manager(None, &yarn), "yarn");
    assert_eq!(choose_package_manager(None, &Markers::none()), "npm");
}

#[test]
fn install_and_script_commands_by_package_manager() {
    assert_eq!(install_command("yarn"), "yarn install");
    assert_eq!(install_command("pnpm"), "pnpm install");
    assert_eq!(install_command("bun"), "bun install");
    assert_eq!(install_command("npm"), "npm install");
    assert_eq!(install_command("other"), "npm install");
    assert_eq!(script_command("yarn", "dev"), "yarn dev");
    assert_eq!(script_command("pnpm", "dev"), "pnpm run dev");
    assert_eq!(script_command("bun", "dev"), "bun run dev");
    assert_eq!(script_command("npm", "dev"), "npm run dev");
    assert_eq!(script_command("other", "build"), "npm run build");
}

#[test]
fn installing_reports_the_package_manager_as_named() {
    assert_eq!(
        install_dependencies(Platform::Windows, "other", &vec![failed("no wt"), Attempt::Started]),
        Ok("Installing dependencies using other...".to_string())
    );
    assert_eq!(
        install_dependencies(Platform::Windows, "other", &vec![failed("no wt"), failed("no cmd")]),
        Err("Failed to run npm: no cmd".to_string())
    );
    assert_eq!(
        install_dependencies(Platform::MacOs, "yarn", &vec![failed("denied")]),
        Err("Failed to run yarn: denied".to_string())
    );
    assert_eq!(
        install_dependencies(Platform::Linux, "yarn", &vec![failed("a"), failed("b"), failed("c")]),
        Err("No terminal emulator found".to_string())
    );
    assert_eq!(
        install_dependencies(Platform::Linux, "pnpm", &vec![failed("a"), Attempt::Started]),
        Ok("Installing dependencies using pnpm...".to_string())
    );
}

#[test]
fn running_a_script_reports_the_command() {
    assert_eq!(
        run_script(Platform::MacOs, "pnpm", "test", &vec![Attempt::Started]),
        Ok("Running pnpm run test...".to_string())
    );
    assert_eq!(
        run_script(Platform::Windows, "npm", "test", &vec![failed("x"), failed("y")]),
        Err("Failed to run script: y".to_string())
    );
    assert_eq!(
        run_script(Platform::Linux, "npm", "test", &vec![]),
        Err("No terminal emulator found".to_string())
    );
}

#[test]
fn opening_a_terminal_reports_by_platform() {
    assert_eq!(open_terminal(Platform::Linux, &vec![failed("x"), Attempt::Started]), Ok(()));
    assert_eq!(
        open_terminal(Platform::Linux, &vec![failed("x")]),
        Err("No terminal emulator found".to_string())
    );
    assert_eq!(
        open_terminal(Platform::MacOs, &vec![failed("x")]),
        Err("Failed to open terminal: x".to_string())
    );
    assert_eq!(open_terminal(Platform::Windows, &vec![Attempt::Started]), Ok(()));
}

#[test]
fn the_name_of_the_project_goes_into_the_command() {
    assert_eq!(
        creation_command("npm create vite@latest {name} && cd {name}", "shop"),
        "npm create vite@latest shop && cd shop"
    );
    assert_eq!(creation_command("cargo init", "shop"), "cargo init");
}

#[test]
fn creating_in_a_terminal_reports_the_path() {
    assert_eq!(
        create_project_in_terminal(Platform::Linux, "/w/shop".to_string(), &vec![Attempt::Started]),
        Ok("/w/shop".to_string())
    );
    assert_eq!(
        create_project_in_terminal(Platform::Windows, "p".to_string(), &vec![failed("a"), failed("b")]),
        Err("Failed to create project: b".to_string())
    );
}

#[test]
fn templates_have_their_commands() {
    assert_eq!(
        template_command("vite-react", "shop"),
        Ok(launch("npm", &["create", "vite@latest", "shop", "--", "--template", "react-ts"]))
    );
    assert_eq!(
        template_command("vite-vue", "shop"),
        Ok(launch("npm", &["create", "vite@latest", "shop", "--", "--template", "vue-ts"]))
    );
    assert_eq!(
        template_command("nextjs", "shop"),
        Ok(launch("npx", &["create-next-app@latest", "shop", "--typescript", "--eslint", "--app"]))
    );
    assert_eq!(template_command("nuxt", "shop"), Ok(launch("npx", &["nuxi@latest", "init", "shop"])));
    assert_eq!(template_command("express", "shop"), Ok(launch("npx", &["express-generator", "shop"])));
    assert_eq!(
        template_command("tauri", "shop"),
        Ok(launch("npm", &["create", "tauri-app@latest", "shop"]))
    );
    assert_eq!(template_command("rails", "shop"), Err("Unknown template: rails".to_string()));
}

#[test]
fn a_created_project_counts_even_where_the_command_failed() {
    let path = "/w/shop".to_string();
    assert_eq!(
        create_project_from_template(&finished(true, "", ""), false, path.clone()),
        Ok(path.clone())
    );
    assert_eq!(
        create_project_from_template(&finished(false, "", "boom"), true, path.clone()),
        Ok(path.clone())
    );
    assert_eq!(
        create_project_from_template(&finished(false, "out", "boom"), false, path.clone()),
        Err("Project creation failed: boom".to_string())
    );
    assert_eq!(
        create_project_from_template(&Run::NotStarted { error: "no npx".to_string() }, true, path),
        Err("Failed to create project: no npx".to_string())
    );
}

#[test]
fn folders_are_shown_by_the_file_manager_of_the_platform() {
    assert_eq!(explorer_launch(Platform::Windows, "C:\\w"), launch("explorer", &["C:\\w"]));
    assert_eq!(explorer_launch(Platform::MacOs, "/w"), launch("open", &["/w"]));
    assert_eq!(explorer_launch(Platform::Linux, "/w"), launch("xdg-open", &["/w"]));
    assert_eq!(reveal_in_explorer(Platform::Linux, &Attempt::Started), Ok(()));
    assert_eq!(
        reveal_in_explorer(Platform::Windows, &failed("x")),
        Err("Failed to open explorer: x".to_string())
    );
    assert_eq!(
        reveal_in_explorer(Platform::MacOs, &failed("x")),
        Err("Failed to open Finder: x".to_string())
    );
    assert_eq!(
        reveal_in_explorer(Platform::Linux, &failed("x")),
        Err("Failed to open file manager: x".to_string())
    );
}

#[test]
fn the_menu_opens_projects_in_code_or_cursor() {
    assert_eq!(open_project_in_ide_from_tray("code", Platform::Windows), vec!["code", "code.cmd"]);
    assert_eq!(open_project_in_ide_from_tray("cursor", Platform::Windows), vec!["cursor", "cursor.cmd"]);
    assert_eq!(
        open_project_in_ide_from_tray("zed", Platform::MacOs),
        vec!["code", "/Applications/Visual Studio Code.app/Contents/Resources/app/bin/code"]
    );
    assert_eq!(
        open_project_in_ide_from_tray("cursor", Platform::MacOs),
        vec!["cursor", "/Applications/Cursor.app/Contents/Resources/app/bin/cursor"]
    );
    assert_eq!(open_project_in_ide_from_tray("cursor", Platform::Linux), vec!["cursor"]);
    assert_eq!(open_project_in_ide_from_tray("code", Platform::Linux), vec!["code"]);
}

#[test]
fn git_pull_gives_what_git_printed() {
    assert_eq!(git_pull(&finished(true, "Already up to date.\n", "")), Ok("Already up to date.\n".to_string()));
    assert_eq!(
        git_pull(&finished(false, "", "fatal: no remote")),
        Err("Git pull failed: fatal: no remote".to_string())
    );
    assert_eq!(
        git_pull(&Run::NotStarted { error: "not found".to_string() }),
        Err("Failed to run git pull: not found".to_string())
    );
}

#[test]
fn git_fetch_says_that_it_is_done() {
    assert_eq!(git_fetch(&finished(true, "noise", "")), Ok("Fetch completed successfully".to_string()));
    assert_eq!(git_fetch(&finished(false, "", "offline")), Err("Git fetch failed: offline".to_string()));
    assert_eq!(
        git_fetch(&Run::NotStarted { error: "not found".to_string() }),
        Err("Failed to run git fetch: not found".to_string())
    );
}
