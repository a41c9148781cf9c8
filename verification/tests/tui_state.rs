use cortx_core::catalog::{find_by_id, import_scripts_config, merge_new, remove_by_id};
use cortx_core::env_files::merge_discovered;
use cortx_core::input::Key;
use cortx_core::listing::{preset_param_values, sort_scripts_by_folder};
use cortx_core::models::{
    EnvFile, EnvFileVariant, FolderType, GlobalScript, GroupExecutionMode, LogStream,
    ParameterPreset, ScriptGroup, ScriptParamType, ScriptParameter, ScriptStatus, VirtualFolder,
};
use cortx_core::script_discovery::extract_description;
use cortx_core::tui::{
    clamp_selection, color_from_hex, filter_scripts, handle_help, handle_normal, handle_search,
    move_bottom, move_down, move_up, toggle_panel, truncate_str, ActivePanel, NormalAction,
    Runtimes, ScriptRuntime, SearchAction, MAX_LOG_LINES,
};
use cortx_core::tui_emitter::ProcessEvent;

fn script(id: &str, name: &str, folder: Option<&str>) -> GlobalScript {
    GlobalScript {
        id: id.into(),
        name: name.into(),
        description: Some(format!("About {}", name)),
        command: format!("run-{}", id),
        script_path: None,
        working_dir: None,
        color: None,
        folder_id: folder.map(|f| f.to_string()),
        tags: vec!["Ops".into()],
        parameters: vec![],
        parameter_presets: vec![],
        default_preset_id: None,
        env_vars: None,
        created_at: 0,
        updated_at: 0,
        order: 0,
        auto_discovered: false,
    }
}

fn folder(id: &str, name: &str, order: Option<u32>) -> VirtualFolder {
    VirtualFolder { id: id.into(), name: name.into(), color: None, icon: None, order, folder_type: FolderType::Script }
}

#[test]
fn runtime_takes_in_events() {
    let mut runtime = ScriptRuntime::default();
    assert_eq!(runtime.status, ScriptStatus::Idle);
    assert!(runtime.logs.is_empty() && runtime.pid.is_none() && runtime.success.is_none());
    runtime.apply(ProcessEvent::Status { script_id: "a".into(), status: ScriptStatus::Running, pid: Some(7) });
    assert_eq!((runtime.status, runtime.pid), (ScriptStatus::Running, Some(7)));
    runtime.apply(ProcessEvent::Log { script_id: "a".into(), stream: LogStream::Stderr, content: "a\rb\r\n".into() });
    assert_eq!(runtime.logs.len(), 1);
    assert_eq!((runtime.logs[0].stream, runtime.logs[0].content.as_str()), (LogStream::Stderr, "ab\n"));
    runtime.apply(ProcessEvent::Exit { script_id: "a".into(), exit_code: Some(3), success: false });
    assert_eq!((runtime.status, runtime.exit_code, runtime.success), (ScriptStatus::Failed, Some(3), Some(false)));
    runtime.apply(ProcessEvent::Exit { script_id: "a".into(), exit_code: Some(0), success: true });
    assert_eq!(runtime.status, ScriptStatus::Completed);
    assert_eq!(runtime.pid, Some(7));
}

#[test]
fn only_the_last_lines_are_kept() {
    assert_eq!(MAX_LOG_LINES, 5000);
    let mut runtime = ScriptRuntime::default();
    for i in 0..(MAX_LOG_LINES + 3) {
        runtime.apply(ProcessEvent::Log { script_id: "a".into(), stream: LogStream::Stdout, content: i.to_string() });
    }
    assert_eq!(runtime.logs.len(), MAX_LOG_LINES);
    assert_eq!(runtime.logs[0].content, "3");
    assert_eq!(runtime.logs[MAX_LOG_LINES - 1].content, (MAX_LOG_LINES + 2).to_string());
}

#[test]
fn runtimes_are_kept_by_script() {
    let mut runtimes = Runtimes::new();
    assert!(runtimes.get("a").is_none());
    runtimes.handle_process_event(ProcessEvent::Status { script_id: "a".into(), status: ScriptStatus::Running, pid: Some(1) });
    runtimes.handle_process_event(ProcessEvent::Log { script_id: "b".into(), stream: LogStream::Stdout, content: "x".into() });
    runtimes.handle_process_event(ProcessEvent::Exit { script_id: "a".into(), exit_code: Some(0), success: true });
    assert_eq!(runtimes.entries.len(), 2);
    assert_eq!(runtimes.get("a").map(|r| r.status), Some(ScriptStatus::Completed));
    assert_eq!(runtimes.get("b").map(|r| (r.status, r.logs.len())), Some((ScriptStatus::Idle, 1)));
    assert_eq!(runtimes.slot("b"), 1);
    assert_eq!(runtimes.slot("c"), 2);
    assert_eq!(runtimes.entries.len(), 3);
}

#[test]
fn keys_in_normal_mode() {
    let (output, list) = (ActivePanel::Output, ActivePanel::ScriptList);
    assert_eq!(handle_normal(Key::Char('q'), false, list), NormalAction::Quit);
    assert_eq!(handle_normal(Key::Char('c'), true, list), NormalAction::Quit);
    assert_eq!(handle_normal(Key::Char('c'), false, list), NormalAction::Nothing);
    assert_eq!(handle_normal(Key::Char('c'), false, output), NormalAction::ClearLogs);
    assert_eq!(handle_normal(Key::Char('j'), false, list), NormalAction::MoveDown);
    assert_eq!(handle_normal(Key::Down, false, output), NormalAction::ScrollOutputDown);
    assert_eq!(handle_normal(Key::Char('k'), false, output), NormalAction::ScrollOutputUp);
    assert_eq!(handle_normal(Key::Up, false, list), NormalAction::MoveUp);
    assert_eq!(handle_normal(Key::Char('g'), false, output), NormalAction::MoveTop);
    assert_eq!(handle_normal(Key::Char('G'), false, output), NormalAction::MoveBottom);
    assert_eq!(handle_normal(Key::Tab, false, output), NormalAction::TogglePanel);
    assert_eq!(handle_normal(Key::Esc, false, output), NormalAction::ClearFilter);
    assert_eq!(handle_normal(Key::Enter, true, list), NormalAction::QuickRun);
    assert_eq!(handle_normal(Key::Enter, false, list), NormalAction::EnterRun);
    assert_eq!(handle_normal(Key::Char('s'), false, list), NormalAction::StopSelected);
    assert_eq!(handle_normal(Key::Char('/'), false, list), NormalAction::EnterSearch);
    assert_eq!(handle_normal(Key::Char('f'), false, output), NormalAction::ToggleAutoScroll);
    assert_eq!(handle_normal(Key::Char('f'), false, list), NormalAction::Nothing);
    assert_eq!(handle_normal(Key::Char('r'), false, list), NormalAction::Reload);
    assert_eq!(handle_normal(Key::Char('?'), false, list), NormalAction::ShowHelp);
    assert_eq!(handle_normal(Key::Char('z'), false, list), NormalAction::Nothing);
    assert_eq!(handle_normal(Key::Home, false, list), NormalAction::Nothing);
}

#[test]
fn keys_in_search_and_help() {
    assert_eq!(handle_search(Key::Esc), SearchAction::Exit);
    assert_eq!(handle_search(Key::Enter), SearchAction::Confirm);
    assert_eq!(handle_search(Key::Backspace), SearchAction::Backspace);
    assert_eq!(handle_search(Key::Char('q')), SearchAction::Input('q'));
    assert_eq!(handle_search(Key::Tab), SearchAction::Nothing);
    assert!(handle_help(Key::Esc) && handle_help(Key::Char('q')) && handle_help(Key::Char('?')));
    assert!(!handle_help(Key::Enter) && !handle_help(Key::Char('x')));
}

#[test]
fn selection_moves_within_the_list() {
    assert_eq!(move_up(0), 0);
    assert_eq!(move_up(3), 2);
    assert_eq!(move_down(0, 0), 0);
    assert_eq!(move_down(0, 2), 1);
    assert_eq!(move_down(1, 2), 1);
    assert_eq!(move_bottom(0, 5), 4);
    assert_eq!(move_bottom(2, 0), 2);
    assert_eq!(clamp_selection(7, 0), 0);
    assert_eq!(clamp_selection(7, 3), 2);
    assert_eq!(clamp_selection(1, 3), 1);
    assert_eq!(toggle_panel(ActivePanel::ScriptList), ActivePanel::Output);
    assert_eq!(toggle_panel(ActivePanel::Output), ActivePanel::ScriptList);
}

#[test]
fn search_looks_at_name_description_tags_and_command() {
    let mut scripts = vec![script("1", "Deploy", None), script("2", "backup", None), script("3", "Test", None)];
    scripts[1].description = None;
    scripts[1].tags = vec!["Nightly".into()];
    scripts[2].tags.clear();
    assert_eq!(filter_scripts(&scripts, ""), vec![0, 1, 2]);
    assert_eq!(filter_scripts(&scripts, "DEPLOY"), vec![0]);
    assert_eq!(filter_scripts(&scripts, "about"), vec![0, 2]);
    assert_eq!(filter_scripts(&scripts, "night"), vec![1]);
    assert_eq!(filter_scripts(&scripts, "ops"), vec![0]);
    assert_eq!(filter_scripts(&scripts, "run-3"), vec![2]);
    assert_eq!(filter_scripts(&scripts, "zzz"), Vec::<usize>::new());
    assert_eq!(filter_scripts(&Vec::new(), "x"), Vec::<usize>::new());
}

#[test]
fn colours_and_cut_texts() {
    assert_eq!(color_from_hex("#3b82f6"), Some((0x3b, 0x82, 0xf6)));
    assert_eq!(color_from_hex("FFffFF"), Some((255, 255, 255)));
    assert_eq!(color_from_hex("##000000"), Some((0, 0, 0)));
    assert_eq!(color_from_hex("#12345"), None);
    assert_eq!(color_from_hex("#12345g"), None);
    assert_eq!(color_from_hex("#+12345"), None);
    assert_eq!(color_from_hex(""), None);
    assert_eq!(truncate_str("short", 10), "short");
    assert_eq!(truncate_str("exactly10!", 10), "exactly10!");
    assert_eq!(truncate_str("a longer text", 10), "a longe...");
    assert_eq!(truncate_str("abcdef", 2), "...");
    assert_eq!(truncate_str("héllo wörld", 8), "héllo...");
}

#[test]
fn scripts_are_listed_folder_by_folder() {
    let folders = vec![folder("f1", "Zeta", Some(1)), folder("f2", "alpha", Some(2)), folder("f3", "Beta", None), folder("f4", "apple", Some(2))];
    let scripts = vec![
        script("1", "zz", Some("f3")),
        script("2", "b", Some("f2")),
        script("3", "Loose", None),
        script("4", "a", Some("f1")),
        script("5", "A", Some("f2")),
        script("6", "alone", Some("missing")),
        script("7", "x", Some("f4")),
    ];
    let sorted = sort_scripts_by_folder(scripts, &folders);
    let ids: Vec<&str> = sorted.iter().map(|s| s.id.as_str()).collect();
    assert_eq!(ids, vec!["6", "3", "4", "5", "2", "7", "1"]);
    assert!(sort_scripts_by_folder(Vec::new(), &folders).is_empty());
}

#[test]
fn a_preset_passes_values_to_the_command_line() {
    let p = |name: &str, required: bool| ScriptParameter {
        name: name.into(),
        param_type: ScriptParamType::String,
        short_flag: None,
        long_flag: None,
        description: None,
        default_value: None,
        required,
        enum_values: vec![],
        nargs: None,
    };
    let parameters = vec![p("a", false), p("b", true), p("c", false), p("d", false)];
    let pairs = |v: &[(&str, &str)]| v.iter().map(|(k, x)| (k.to_string(), x.to_string())).collect::<Vec<_>>();
    let legacy = ParameterPreset { id: "1".into(), name: "l".into(), description: None, values: pairs(&[("c", "3"), ("a", "1"), ("z", "9")]), enabled: vec![] };
    assert_eq!(preset_param_values(&legacy, &parameters), pairs(&[("a", "1"), ("c", "3")]));
    let flagged = ParameterPreset {
        id: "2".into(),
        name: "f".into(),
        description: None,
        values: pairs(&[("a", "1"), ("b", "2"), ("c", "3")]),
        enabled: vec![("a".into(), false), ("c".into(), true), ("d".into(), true)],
    };
    assert_eq!(preset_param_values(&flagged, &parameters), pairs(&[("b", "2"), ("c", "3")]));
}

#[test]
fn entities_are_found_and_removed_by_id() {
    let mut folders = vec![folder("a", "A", None), folder("b", "B", None), folder("a", "again", None)];
    assert_eq!(find_by_id(&folders, "a"), Some(0));
    assert_eq!(find_by_id(&folders, "b"), Some(1));
    assert_eq!(find_by_id(&folders, "c"), None);
    assert!(remove_by_id(&mut folders, "a"));
    assert_eq!(folders.iter().map(|f| f.name.as_str()).collect::<Vec<_>>(), vec!["B"]);
    assert!(!remove_by_id(&mut folders, "a"));
    assert_eq!(folders.len(), 1);
}

#[test]
fn an_import_adds_what_is_new() {
    let group = |id: &str| ScriptGroup {
        id: id.into(),
        name: id.into(),
        description: None,
        script_ids: vec![],
        execution_mode: GroupExecutionMode::Parallel,
        stop_on_failure: false,
        folder_id: None,
        order: 0,
    };
    let mut folders = vec![folder("f1", "one", None)];
    let mut scripts = vec![script("s1", "one", None)];
    let mut groups = vec![];
    let result = import_scripts_config(
        &mut folders,
        &mut scripts,
        &mut groups,
        vec![folder("f1", "dup", None), folder("f2", "two", None)],
        vec![script("s2", "two", None), script("s1", "dup", None), script("s2", "twice", None)],
        vec![group("g1")],
    );
    assert_eq!((result.folders_added, result.scripts_added, result.groups_added, result.skipped), (1, 2, 1, 2));
    assert_eq!(folders.iter().map(|f| f.name.as_str()).collect::<Vec<_>>(), vec!["one", "two"]);
    assert_eq!(scripts.iter().map(|s| s.name.as_str()).collect::<Vec<_>>(), vec!["one", "two", "twice"]);
    assert_eq!(groups.len(), 1);
    let mut empty: Vec<VirtualFolder> = Vec::new();
    assert_eq!(merge_new(&mut empty, Vec::new()), (0, 0));
}

#[test]
fn descriptions_come_from_the_first_comment() {
    assert_eq!(extract_description("#!/bin/sh\n# Deploys the app\necho hi"), Some("Deploys the app".to_string()));
    assert_eq!(extract_description("\n\n#\n#   spaced  \nx"), Some("spaced".to_string()));
    assert_eq!(extract_description("echo hi\n# too late"), None);
    assert_eq!(extract_description(""), None);
    assert_eq!(extract_description("rem Batch job\r\n@echo off"), Some("Batch job".to_string()));
    assert_eq!(extract_description("REM \necho"), None);
    assert_eq!(extract_description("<# Block comment #>\nGet-Item"), Some("Block comment".to_string()));
    assert_eq!(extract_description("<#\n text\n#>"), None);
    assert_eq!(
        extract_description("# /// script\n# requires-python = \">=3.11\"\n# ///\n# The real one\n"),
        Some("The real one".to_string())
    );
    assert_eq!(extract_description("# /// script\n# never closed\n# still inside"), None);
    assert_eq!(extract_description("#!shebang only"), None);
}

#[test]
fn manual_env_files_survive_a_forced_discovery() {
    let file = |path: &str, manual: bool| EnvFile {
        id: path.into(),
        path: path.into(),
        relative_path: path.into(),
        filename: ".env".into(),
        variant: EnvFileVariant::Base,
        variables: vec![],
        is_manually_added: manual,
        linked_service_id: None,
        discovered_at: 0,
        last_read_at: 0,
    };
    let paths = |files: &[EnvFile]| files.iter().map(|f| f.path.clone()).collect::<Vec<_>>();
    let discovered = || vec![file("/a", false), file("/b", false)];
    let known = || vec![file("/old", false), file("/m", true), file("/a", true), file("/m", true)];
    assert_eq!(paths(&merge_discovered(discovered(), known(), true)), vec!["/a", "/b", "/m"]);
    assert_eq!(paths(&merge_discovered(discovered(), known(), false)), vec!["/a", "/b"]);
    assert_eq!(paths(&merge_discovered(Vec::new(), known(), true)), vec!["/m", "/a"]);
}
