use cortx_core::env_files::{
    compare_env_files, detect_variant, is_env_file, is_env_name, parse_env_content,
    refresh_env_file, select_keys, strip_quotes, variant_of_name,
};
use cortx_core::models::{EnvFile, EnvFileVariant, EnvVariable, Platform, Service, TerminalConfig, TerminalPreset};
use cortx_core::services::{get_launch_command, resolve_service_launch, service_working_dir};
use cortx_core::terminal::{
    editor_failure, external_terminal_plan, open_in_explorer, open_in_vscode, terminal_failure,
    urlencoding, TerminalCommand,
};

#[test]
fn env_file_names() {
    for name in [".env", ".ENV", ".env.local", ".Env.Production", ".env.sample", ".env.anything"] {
        assert!(is_env_file(name), "{}", name);
    }
    for name in ["env", ".envrc", "a.env", ".environment", "", ".en"] {
        assert!(!is_env_file(name), "{}", name);
    }
    assert!(is_env_name(".env."));
    assert!(!is_env_name(".ENV"));
}

#[test]
fn env_file_variants() {
    assert_eq!(detect_variant(".env"), EnvFileVariant::Base);
    assert_eq!(detect_variant(".ENV.LOCAL"), EnvFileVariant::Local);
    assert_eq!(detect_variant(".env.development"), EnvFileVariant::Development);
    assert_eq!(detect_variant(".env.dev"), EnvFileVariant::Development);
    assert_eq!(detect_variant(".env.production.local"), EnvFileVariant::Production);
    assert_eq!(detect_variant(".env.prod"), EnvFileVariant::Production);
    assert_eq!(detect_variant(".env.test"), EnvFileVariant::Test);
    assert_eq!(detect_variant(".env.staging"), EnvFileVariant::Staging);
    assert_eq!(detect_variant(".env.example"), EnvFileVariant::Example);
    assert_eq!(detect_variant(".env.sample"), EnvFileVariant::Example);
    assert_eq!(detect_variant(".env.ci"), EnvFileVariant::Other);
    assert_eq!(detect_variant(".env.test.example"), EnvFileVariant::Test);
    assert_eq!(variant_of_name(".env.local.dev"), EnvFileVariant::Development);
}

#[test]
fn quotes_around_a_value() {
    assert_eq!(strip_quotes("  \"a b\"  "), "a b");
    assert_eq!(strip_quotes("'a'"), "a");
    assert_eq!(strip_quotes("\"a'"), "\"a'");
    assert_eq!(strip_quotes("\""), "\"");
    assert_eq!(strip_quotes("\"\""), "");
    assert_eq!(strip_quotes("  plain "), "plain");
    assert_eq!(strip_quotes(""), "");
}

#[test]
fn env_content_is_read_line_by_line() {
    let content = "# comment\n\nKEY=value\n  SPACED = \" quoted value \" \nEMPTY=\n=novalue\nnoequals\nURL=http://x/?a=b\r\nLAST='x'";
    let vars = parse_env_content(content);
    let got: Vec<(&str, &str, u32)> =
        vars.iter().map(|v| (v.key.as_str(), v.value.as_str(), v.line_number)).collect();
    assert_eq!(
        got,
        vec![
            ("KEY", "value", 3),
            ("SPACED", " quoted value ", 4),
            ("EMPTY", "", 5),
            ("URL", "http://x/?a=b", 8),
            ("LAST", "x", 9),
        ]
    );
    assert!(parse_env_content("").is_empty());
}

fn var(key: &str) -> EnvVariable {
    EnvVariable { key: key.to_string(), value: String::new(), line_number: 1 }
}

fn file(id: &str, keys: &[&str]) -> EnvFile {
    EnvFile {
        id: id.to_string(),
        path: format!("/p/{}", id),
        relative_path: id.to_string(),
        filename: id.to_string(),
        variant: EnvFileVariant::Other,
        variables: keys.iter().map(|k| var(k)).collect(),
        is_manually_added: false,
        linked_service_id: None,
        discovered_at: 0,
        last_read_at: 0,
    }
}

#[test]
fn env_files_compare_by_their_keys() {
    let base = file("base", &["A", "B", "B", "C"]);
    let example = file("example", &["B", "D", "A", "D"]);
    let comparison = compare_env_files(&base, &example);
    assert_eq!(comparison.base_file_id, "base");
    assert_eq!(comparison.example_file_id, "example");
    assert_eq!(comparison.missing_in_base, vec!["D"]);
    assert_eq!(comparison.extra_in_base, vec!["C"]);
    assert_eq!(comparison.common_keys, vec!["A", "B"]);
    assert!(select_keys(&Vec::new(), &base.variables, false).is_empty());
}

fn service() -> Service {
    Service {
        id: "s".into(),
        name: "api".into(),
        working_dir: "server".into(),
        command: "npm start".into(),
        modes: Some(vec![("dev".into(), "npm run dev".into()), ("prod".into(), "npm run prod".into())]),
        default_mode: None,
        extra_args: Some("  --port 3000 ".into()),
        arg_presets: Some(vec![("verbose".into(), " -v ".into()), ("blank".into(), "   ".into())]),
        default_arg_preset: None,
        color: None,
        port: None,
        env_vars: None,
        order: 0,
    }
}

#[test]
fn service_command_resolution() {
    let s = service();
    let plain = resolve_service_launch(&s, None, None).unwrap();
    assert_eq!(plain.command, "npm start --port 3000");
    assert!(plain.mode.is_none() && plain.arg_preset.is_none());

    let dev = resolve_service_launch(&s, Some("dev".into()), Some("verbose".into())).unwrap();
    assert_eq!(dev.command, "npm run dev --port 3000 -v");
    assert_eq!(dev.mode.as_deref(), Some("dev"));
    assert_eq!(dev.arg_preset.as_deref(), Some("verbose"));

    let blank = resolve_service_launch(&s, None, Some("blank".into())).unwrap();
    assert_eq!(blank.command, "npm start --port 3000");
    let unknown_preset = resolve_service_launch(&s, None, Some("nope".into())).unwrap();
    assert_eq!(unknown_preset.command, "npm start --port 3000");
    assert_eq!(unknown_preset.arg_preset.as_deref(), Some("nope"));

    assert_eq!(
        resolve_service_launch(&s, Some("test".into()), None).unwrap_err(),
        "Mode 'test' not found for service"
    );

    let mut defaults = service();
    defaults.default_mode = Some("prod".into());
    defaults.default_arg_preset = Some("verbose".into());
    defaults.extra_args = None;
    let resolved = resolve_service_launch(&defaults, None, None).unwrap();
    assert_eq!(resolved.command, "npm run prod -v");
    assert_eq!(resolved.mode.as_deref(), Some("prod"));
    let explicit = resolve_service_launch(&defaults, Some("dev".into()), None).unwrap();
    assert_eq!(explicit.command, "npm run dev -v");

    let mut bare = service();
    bare.modes = None;
    assert!(resolve_service_launch(&bare, Some("dev".into()), None).is_err());
}

#[test]
fn service_directories_and_launch_lines() {
    assert_eq!(service_working_dir("/proj", ""), "/proj");
    assert_eq!(service_working_dir("/proj", "."), "/proj");
    assert_eq!(service_working_dir("/proj", "api"), std::path::Path::new("/proj").join("api").to_string_lossy());
    assert_eq!(get_launch_command("/proj/api", "npm start"), "cd \"/proj/api\" && npm start");
}

#[test]
fn paths_are_encoded_for_uris() {
    assert_eq!(urlencoding("C:\\My Projects/a_b-c.d~"), "C%3A%5CMy%20Projects%2Fa_b-c.d~");
    assert_eq!(urlencoding(""), "");
    assert_eq!(urlencoding("a+b&c"), "a%2Bb%26c");
    assert_eq!(urlencoding("é"), format!("%{:02X}", 'é' as u8));
    assert_eq!(urlencoding("\u{1}"), "%01");
}

fn config(preset: TerminalPreset, path: &str, args: &[&str]) -> TerminalConfig {
    TerminalConfig {
        preset,
        custom_path: path.to_string(),
        custom_args: args.iter().map(|a| a.to_string()).collect(),
    }
}

fn shown(c: &TerminalCommand) -> (String, Vec<String>, Option<String>, bool, bool) {
    (c.program.clone(), c.args.clone(), c.working_dir.clone(), c.new_console, c.hide_window)
}

#[test]
fn terminals_on_windows() {
    let wt = external_terminal_plan(Platform::Windows, &config(TerminalPreset::WindowsTerminal, "", &[]), "C:\\p", "npm start").unwrap();
    assert!(!wt.detect);
    assert_eq!(wt.failure, "Failed to launch Windows Terminal");
    assert_eq!(wt.candidates.len(), 1);
    assert_eq!(
        shown(&wt.candidates[0]),
        ("wt.exe".into(), vec!["-d".into(), "C:\\p".into(), "cmd".into(), "/k".into(), "npm start".into()], None, false, false)
    );
    let mac = external_terminal_plan(Platform::Windows, &config(TerminalPreset::ITerm2, "", &[]), "C:\\p", "x").unwrap();
    assert_eq!(mac.candidates[0].program, "wt.exe");

    let ps = external_terminal_plan(Platform::Windows, &config(TerminalPreset::PowerShell, "", &[]), "C:\\it's", "run").unwrap();
    assert_eq!(
        shown(&ps.candidates[0]),
        ("powershell.exe".into(), vec!["-NoExit".into(), "-Command".into(), "Set-Location 'C:\\it''s'; run".into()], None, true, false)
    );
    assert_eq!(ps.failure, "Failed to launch PowerShell");

    let cmd = external_terminal_plan(Platform::Windows, &config(TerminalPreset::Cmd, "", &[]), "C:\\p", "run").unwrap();
    assert_eq!(
        shown(&cmd.candidates[0]),
        ("cmd.exe".into(), vec!["/k".into(), "cd /d \"C:\\p\" && run".into()], None, true, false)
    );
    assert_eq!(cmd.failure, "Failed to launch Command Prompt");

    let warp = external_terminal_plan(Platform::Windows, &config(TerminalPreset::Warp, "", &[]), "C:\\a b", "run").unwrap();
    assert_eq!(
        shown(&warp.candidates[0]),
        ("cmd".into(), vec!["/c".into(), "start".into(), "".into(), "warp://action/new_window?path=C%3A%5Ca%20b".into()], None, false, true)
    );

    let missing = external_terminal_plan(Platform::Windows, &config(TerminalPreset::Custom, "", &["x"]), "C:\\p", "run");
    assert_eq!(missing.unwrap_err(), "Custom terminal path is not configured");

    let bare = external_terminal_plan(Platform::Windows, &config(TerminalPreset::Custom, "term.exe", &[]), "C:\\p", "run").unwrap();
    assert_eq!(shown(&bare.candidates[0]), ("term.exe".into(), vec![], Some("C:\\p".into()), true, false));

    let custom = external_terminal_plan(
        Platform::Windows,
        &config(TerminalPreset::Custom, "term.exe", &["--cwd={dir}", "-e", "{command}", "{full_command}"]),
        "C:\\p",
        "run",
    )
    .unwrap();
    assert_eq!(
        shown(&custom.candidates[0]),
        (
            "term.exe".into(),
            vec!["--cwd=C:\\p".into(), "-e".into(), "run".into(), "cd /d \"C:\\p\" && run".into()],
            None,
            true,
            false
        )
    );
    assert_eq!(terminal_failure(&custom, "not found"), "Failed to launch custom terminal: not found");
}

#[test]
fn terminals_on_macos() {
    let terminal = external_terminal_plan(Platform::MacOs, &config(TerminalPreset::MacTerminal, "", &[]), "/it's", "say \"hi\"").unwrap();
    let expected = format!(
        r#"tell application "Terminal"
                        activate
                        do script "cd '{}' && {}"
                    end tell"#,
        "/it's".replace("'", "'\\''"),
        "say \"hi\"".replace("\"", "\\\"")
    );
    assert_eq!(shown(&terminal.candidates[0]), ("osascript".into(), vec!["-e".into(), expected.clone()], None, false, false));
    assert_eq!(terminal.failure, "Failed to launch Terminal");
    let fallback = external_terminal_plan(Platform::MacOs, &config(TerminalPreset::Cmd, "", &[]), "/it's", "say \"hi\"").unwrap();
    assert_eq!(fallback.candidates[0].args[1], expected);

    let iterm = external_terminal_plan(Platform::MacOs, &config(TerminalPreset::ITerm2, "", &[]), "/p", "run").unwrap();
    let expected = format!(
        r#"tell application "iTerm"
                        activate
                        create window with default profile
                        tell current session of current window
                            write text "cd '{}' && {}"
                        end tell
                    end tell"#,
        "/p", "run"
    );
    assert_eq!(iterm.candidates[0].args, vec!["-e".to_string(), expected]);
    assert_eq!(iterm.failure, "Failed to launch iTerm2");

    let warp = external_terminal_plan(Platform::MacOs, &config(TerminalPreset::Warp, "", &[]), "/p", "run").unwrap();
    let expected = format!(
        r#"tell application "Warp"
                        activate
                    end tell
                    delay 0.5
                    tell application "System Events"
                        keystroke "cd '{}' && {}"
                        key code 36
                    end tell"#,
        "/p", "run"
    );
    assert_eq!(warp.candidates[0].args, vec!["-e".to_string(), expected]);
    assert_eq!(warp.failure, "Failed to launch Warp");

    let custom = external_terminal_plan(Platform::MacOs, &config(TerminalPreset::Custom, "Kitty", &["ignored"]), "/p", "run").unwrap();
    assert_eq!(shown(&custom.candidates[0]), ("open".into(), vec!["-a".into(), "Kitty".into()], Some("/p".into()), false, false));
    assert!(external_terminal_plan(Platform::MacOs, &config(TerminalPreset::Custom, "", &[]), "/p", "run").is_err());
}

#[test]
fn terminals_on_linux() {
    let line = "cd \"/p\" && run; exec $SHELL";
    for preset in [TerminalPreset::Custom, TerminalPreset::WindowsTerminal, TerminalPreset::Warp] {
        let plan = external_terminal_plan(Platform::Linux, &config(preset, "", &["x"]), "/p", "run").unwrap();
        assert!(plan.detect);
        assert_eq!(plan.failure, "No supported terminal emulator found");
        assert_eq!(terminal_failure(&plan, "whatever"), "No supported terminal emulator found");
        let got: Vec<(String, Vec<String>)> = plan.candidates.iter().map(|c| (c.program.clone(), c.args.clone())).collect();
        let s = |v: &[&str]| v.iter().map(|x| x.to_string()).collect::<Vec<_>>();
        assert_eq!(
            got,
            vec![
                ("gnome-terminal".to_string(), s(&["--", "bash", "-c", line])),
                ("konsole".to_string(), s(&["-e", "bash", "-c", line])),
                ("xfce4-terminal".to_string(), s(&["-e", &format!("bash -c '{}'", line)])),
                ("alacritty".to_string(), s(&["-e", "bash", "-c", line])),
                ("kitty".to_string(), s(&["bash", "-c", line])),
                ("xterm".to_string(), s(&["-e", "bash", "-c", line])),
            ]
        );
        assert!(plan.candidates.iter().all(|c| c.working_dir.is_none() && !c.new_console && !c.hide_window));
    }
    let preset_with_path = external_terminal_plan(Platform::Linux, &config(TerminalPreset::Cmd, "foot", &[]), "/p", "run").unwrap();
    assert!(preset_with_path.detect);

    let custom = external_terminal_plan(Platform::Linux, &config(TerminalPreset::Custom, "foot", &[]), "/p", "run").unwrap();
    assert!(!custom.detect);
    assert_eq!(shown(&custom.candidates[0]), ("foot".into(), vec!["-e".into(), "bash".into(), "-c".into(), line.into()], None, false, false));
    let filled = external_terminal_plan(Platform::Linux, &config(TerminalPreset::Custom, "foot", &["{full_command}", "{dir}/{command}"]), "/p", "run").unwrap();
    assert_eq!(filled.candidates[0].args, vec![line.to_string(), "/p/run".to_string()]);
}

#[test]
fn file_manager_and_editor_commands() {
    assert_eq!(shown(&open_in_explorer(Platform::Windows, "C:\\p")), ("explorer".into(), vec!["C:\\p".into()], None, false, false));
    assert_eq!(shown(&open_in_explorer(Platform::MacOs, "/p")), ("open".into(), vec!["/p".into()], None, false, false));
    assert_eq!(shown(&open_in_explorer(Platform::Linux, "/p")), ("xdg-open".into(), vec!["/p".into()], None, false, false));
    assert_eq!(
        shown(&open_in_vscode(Platform::Windows, "C:\\p")),
        ("cmd".into(), vec!["/C".into(), "code".into(), "C:\\p".into()], None, false, false)
    );
    assert_eq!(shown(&open_in_vscode(Platform::Linux, "/p")), ("code".into(), vec!["/p".into()], None, false, false));
    assert_eq!(shown(&open_in_vscode(Platform::MacOs, "/p")).0, "code");
    assert_eq!(
        editor_failure("not found"),
        "Failed to open VSCode: not found. Make sure VSCode is installed and 'code' command is in PATH."
    );
}

#[test]
fn refreshing_an_env_file() {
    let mut f = file("a", &["OLD"]);
    f.last_read_at = 5;
    refresh_env_file(&mut f, Some(vec![var("NEW"), var("TWO")]), 99);
    assert_eq!(f.variables.iter().map(|v| v.key.as_str()).collect::<Vec<_>>(), vec!["NEW", "TWO"]);
    assert_eq!((f.last_read_at, f.id.as_str()), (99, "a"));
    refresh_env_file(&mut f, None, 200);
    assert!(f.variables.is_empty());
    assert_eq!(f.last_read_at, 99);
}
