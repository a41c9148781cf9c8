use cortx_core::display::{display_with_name, format_command_display, style_status_symbol};
use cortx_core::events::{dispatch, dispatch_all, EngineEvent, ProcessEventEmitter};
use cortx_core::models::{
    default_ignored_patterns, default_scan_extensions, AppSettings, AppearanceConfig,
    DefaultsConfig, EnvFile, EnvFileVariant, ExecutionRecord, FolderType, GlobalScript,
    GroupExecutionMode, LaunchMethod, LogStream, Platform, Project, Script, ScriptGroup,
    ScriptLogPayload, ScriptStatus, ScriptStatusPayload, ScriptExitPayload, ScriptsConfig, Service,
    ServiceLogPayload, TerminalConfig, TerminalPreset, Theme, VirtualFolder,
};
use cortx_core::tui_emitter::{ProcessEvent, TuiEmitter};
use std::sync::mpsc::channel;

#[test]
fn status_symbols() {
    assert_eq!(style_status_symbol(&ScriptStatus::Running), "●");
    assert_eq!(style_status_symbol(&ScriptStatus::Completed), "✓");
    assert_eq!(style_status_symbol(&ScriptStatus::Failed), "✗");
    assert_eq!(style_status_symbol(&ScriptStatus::Idle), "○");
}

#[test]
fn command_display_names_the_script_file() {
    assert_eq!(
        format_command_display("python {{SCRIPT_FILE}} -v", Some("/home/me/tools/run.py")),
        "python {{SCRIPT_FILE:run.py}} -v"
    );
    assert_eq!(format_command_display("python {{SCRIPT_FILE}}", None), "python {{SCRIPT_FILE}}");
    assert_eq!(format_command_display("echo hi", Some("/x/y.sh")), "echo hi");
    assert_eq!(format_command_display("sh {{SCRIPT_FILE}}", Some("..")), "sh {{SCRIPT_FILE:..}}");
    assert_eq!(
        display_with_name("{{SCRIPT_FILE}} {{SCRIPT_FILE}}", "a"),
        "{{SCRIPT_FILE:a}} {{SCRIPT_FILE:a}}"
    );
}

#[test]
fn tui_emitter_forwards_global_script_events_only() {
    let (tx, rx) = channel();
    let emitter = TuiEmitter::new(tx);
    emitter.emit_service_log("s", LogStream::Stdout, "ignored".to_string());
    emitter.emit_script_exit("p", Some(0), true);
    emitter.emit_global_script_log("g", LogStream::Stderr, "line".to_string());
    emitter.emit_global_script_status("g", ScriptStatus::Running, Some(12));
    emitter.emit_global_script_exit("g", Some(2), false);
    let got: Vec<ProcessEvent> = rx.try_iter().collect();
    assert_eq!(got.len(), 3);
    assert!(matches!(&got[0], ProcessEvent::Log { script_id, stream, content }
        if script_id == "g" && *stream == LogStream::Stderr && content == "line"));
    assert!(matches!(&got[1], ProcessEvent::Status { script_id, status, pid }
        if script_id == "g" && *status == ScriptStatus::Running && *pid == Some(12)));
    assert!(matches!(&got[2], ProcessEvent::Exit { script_id, exit_code, success }
        if script_id == "g" && *exit_code == Some(2) && !*success));
}

#[test]
fn tui_emitter_outlives_its_receiver() {
    let (tx, rx) = channel();
    let emitter = TuiEmitter::new(tx);
    drop(rx);
    emitter.emit_global_script_status("g", ScriptStatus::Failed, None);
}

#[test]
fn dispatch_routes_by_kind_and_category() {
    let (tx, rx) = channel();
    let emitter = TuiEmitter::new(tx);
    dispatch(
        &emitter,
        EngineEvent::ServiceLog(ServiceLogPayload {
            service_id: "s".into(),
            stream: LogStream::Stdout,
            content: "x".into(),
        }),
    );
    dispatch_all(
        &emitter,
        vec![
            EngineEvent::GlobalScriptStatus(ScriptStatusPayload {
                script_id: "g".into(),
                status: ScriptStatus::Completed,
                pid: None,
            }),
            EngineEvent::ScriptLog(ScriptLogPayload {
                script_id: "p".into(),
                stream: LogStream::Stdout,
                content: "x".into(),
            }),
            EngineEvent::GlobalScriptExit(ScriptExitPayload {
                script_id: "g".into(),
                exit_code: Some(0),
                success: true,
            }),
        ],
    );
    let got: Vec<ProcessEvent> = rx.try_iter().collect();
    assert_eq!(got.len(), 2);
    assert!(matches!(&got[0], ProcessEvent::Status { status, .. } if *status == ScriptStatus::Completed));
    assert!(matches!(&got[1], ProcessEvent::Exit { success, .. } if *success));
}

#[test]
fn fresh_entities_get_distinct_ids_of_36_characters() {
    let a = Service::new("api".into(), "/srv".into(), "run".into());
    let b = Service::new("api".into(), "/srv".into(), "run".into());
    assert_eq!(a.id.len(), 36);
    assert_eq!(a.id.matches('-').count(), 4);
    assert_ne!(a.id, b.id);
    assert_eq!((a.name.as_str(), a.working_dir.as_str(), a.command.as_str(), a.order), ("api", "/srv", "run", 0));
    assert!(a.modes.is_none() && a.port.is_none() && a.env_vars.is_none());

    let script = Script::new("build".into(), "/w".into(), "make".into());
    assert_eq!(script.id.len(), 36);
    assert!(script.linked_service_ids.is_empty());

    let folder = VirtualFolder::new("tools".into(), FolderType::Script);
    assert_eq!(folder.id.len(), 36);
    assert_eq!(folder.folder_type, FolderType::Script);

    let group = ScriptGroup::new("all".into(), GroupExecutionMode::Sequential);
    assert!(group.stop_on_failure && group.script_ids.is_empty());
    assert_eq!(group.execution_mode, GroupExecutionMode::Sequential);
}

#[test]
fn fresh_entities_are_stamped_with_the_current_time() {
    let project = Project::new("p".into(), "/p".into());
    assert_eq!(project.created_at, project.updated_at);
    assert!(project.created_at > 1_600_000_000_000);
    assert!(project.last_opened_at.is_none() && !project.env_files_discovered);

    let global = GlobalScript::new("g".into(), "run".into(), Some("/g".into()));
    assert_eq!(global.created_at, global.updated_at);
    assert!(global.created_at > 1_600_000_000_000);
    assert_eq!(global.working_dir.as_deref(), Some("/g"));

    let file = EnvFile::new("/p/.env".into(), ".env".into(), ".env".into(), EnvFileVariant::Base, vec![], true);
    assert_eq!(file.discovered_at, file.last_read_at);
    assert!(file.is_manually_added && file.linked_service_id.is_none());

    let record = ExecutionRecord::new("g".into());
    assert!(record.started_at > 1_600_000_000_000);
    assert!(!record.success && record.finished_at.is_none() && record.parameters_used.is_empty());
}

#[test]
fn defaults_of_the_settings() {
    assert_eq!(
        default_scan_extensions(),
        vec!["sh", "bash", "zsh", "ps1", "bat", "cmd", "py", "js", "ts", "rb", "pl"]
    );
    assert_eq!(default_ignored_patterns(), vec!["node_modules", ".git", "target", "__pycache__", ".venv"]);
    let scripts = ScriptsConfig::default();
    assert!(scripts.main_folder.is_none() && !scripts.auto_scan_on_startup);
    assert_eq!(scripts.scan_extensions.len(), 11);
    assert_eq!(AppearanceConfig::default().theme, Theme::System);
    assert_eq!(DefaultsConfig::default().launch_method, LaunchMethod::Integrated);
    assert_eq!(TerminalPreset::default_for(Platform::Windows), TerminalPreset::WindowsTerminal);
    assert_eq!(TerminalPreset::default_for(Platform::MacOs), TerminalPreset::MacTerminal);
    assert_eq!(TerminalPreset::default_for(Platform::Linux), TerminalPreset::Custom);
    let terminal = TerminalConfig::default_for(Platform::MacOs);
    assert!(terminal.custom_path.is_empty() && terminal.custom_args.is_empty());
    let settings = AppSettings::default_for(Platform::Linux);
    assert_eq!(settings.terminal.preset, TerminalPreset::Custom);
    assert_eq!(settings.scripts_config.ignored_patterns.len(), 5);
    assert!(Platform::Linux.has_process_groups() && Platform::MacOs.has_process_groups());
    assert!(!Platform::Windows.has_process_groups());
}
