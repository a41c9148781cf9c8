//! The data model: configuration entities, runtime states and event payloads.

use vstd::prelude::*;

verus! {

/// The host's platform family. It decides how a shell command is wrapped, how
/// a process tree is terminated and which terminal is the default one.
#[derive(Clone, Copy, Debug, PartialEq, Eq, Structural)]
pub enum Platform {
    Windows,
    MacOs,
    Linux,
}

impl Platform {
    /// Whether the platform has POSIX process groups.
    pub open spec fn spec_has_process_groups(self) -> bool {
        self != Platform::Windows
    }

    /// Whether the platform has POSIX process groups.
    #[verifier::when_used_as_spec(spec_has_process_groups)]
    pub fn has_process_groups(self) -> (groups: bool)
        ensures
            groups == self.spec_has_process_groups(),
    {
        match self {
            Platform::Windows => false,
            Platform::MacOs => true,
            Platform::Linux => true,
        }
    }
}

/// A fresh random identifier in hyphenated form.
///
/// Calls `uuid::Uuid::new_v4` and formats the result with its `Display`
/// impl, which writes the 32 hexadecimal digits in five hyphen-separated
/// groups: 36 characters. Which identifier comes out is left open.
#[verifier::external_body]
pub(crate) fn fresh_id() -> (id: String)
    ensures
        id@.len() == 36,
{
    uuid::Uuid::new_v4().to_string()
}

/// The current time, in milliseconds since the Unix epoch.
///
/// Calls `chrono::Utc::now` and `DateTime::timestamp_millis`. Nothing is
/// claimed of the value.
#[verifier::external_body]
pub(crate) fn now_millis() -> (millis: i64) {
    chrono::Utc::now().timestamp_millis()
}

#[derive(Debug, Clone)]
pub struct Service {
    pub id: String,
    pub name: String,
    pub working_dir: String,
    pub command: String,
    pub modes: Option<Vec<(String, String)>>,
    pub default_mode: Option<String>,
    pub extra_args: Option<String>,
    pub arg_presets: Option<Vec<(String, String)>>,
    pub default_arg_preset: Option<String>,
    pub color: Option<String>,
    pub port: Option<u16>,
    pub env_vars: Option<Vec<(String, String)>>,
    pub order: u32,
}

impl Service {
    /// A service with a fresh id and nothing optional set.
    pub fn new(name: String, working_dir: String, command: String) -> (service: Self)
        ensures
            service.id@.len() == 36,
            service.name == name,
            service.working_dir == working_dir,
            service.command == command,
            service.modes is None,
            service.default_mode is None,
            service.extra_args is None,
            service.arg_presets is None,
            service.default_arg_preset is None,
            service.color is None,
            service.port is None,
            service.env_vars is None,
            service.order == 0,
    {
        Service {
            id: fresh_id(),
            name,
            working_dir,
            command,
            modes: None,
            default_mode: None,
            extra_args: None,
            arg_presets: None,
            default_arg_preset: None,
            color: None,
            port: None,
            env_vars: None,
            order: 0,
        }
    }
}

#[derive(Debug, Clone)]
pub struct Script {
    pub id: String,
    pub name: String,
    pub description: Option<String>,
    pub command: String,
    pub script_path: Option<String>,
    pub working_dir: String,
    pub color: Option<String>,
    pub linked_service_ids: Vec<String>,
    pub order: u32,
}

impl Script {
    /// A script with a fresh id and nothing optional set.
    pub fn new(name: String, working_dir: String, command: String) -> (script: Self)
        ensures
            script.id@.len() == 36,
            script.name == name,
            script.working_dir == working_dir,
            script.command == command,
            script.description is None,
            script.script_path is None,
            script.color is None,
            script.linked_service_ids@.len() == 0,
            script.order == 0,
    {
        Script {
            id: fresh_id(),
            name,
            description: None,
            command,
            script_path: None,
            working_dir,
            color: None,
            linked_service_ids: Vec::new(),
            order: 0,
        }
    }
}

/// A project. Times are milliseconds since the Unix epoch.
#[derive(Debug, Clone)]
pub struct Project {
    pub id: String,
    pub name: String,
    pub root_path: String,
    pub description: Option<String>,
    pub image_path: Option<String>,
    pub created_at: i64,
    pub updated_at: i64,
    pub last_opened_at: Option<i64>,
    pub services: Vec<Service>,
    pub scripts: Vec<Script>,
    pub env_files: Vec<EnvFile>,
    pub env_files_discovered: bool,
    pub folder_id: Option<String>,
}

impl Project {
    /// An empty project with a fresh id, created and updated now.
    pub fn new(name: String, root_path: String) -> (project: Self)
        ensures
            project.id@.len() == 36,
            project.name == name,
            project.root_path == root_path,
            project.description is None,
            project.image_path is None,
            project.created_at == project.updated_at,
            project.last_opened_at is None,
            project.services@.len() == 0,
            project.scripts@.len() == 0,
            project.env_files@.len() == 0,
            !project.env_files_discovered,
            project.folder_id is None,
    {
        let now = now_millis();
        Project {
            id: fresh_id(),
            name,
            root_path,
            description: None,
            image_path: None,
            created_at: now,
            updated_at: now,
            last_opened_at: None,
            services: Vec::new(),
            scripts: Vec::new(),
            env_files: Vec::new(),
            env_files_discovered: false,
            folder_id: None,
        }
    }
}

#[derive(Debug, Clone)]
pub struct EnvVariable {
    pub key: String,
    pub value: String,
    pub line_number: u32,
}

#[derive(Clone, Copy, Debug, PartialEq, Eq, Structural)]
pub enum EnvFileVariant {
    Base,
    Local,
    Development,
    Production,
    Test,
    Staging,
    Example,
    Other,
}

/// An environment file. Times are milliseconds since the Unix epoch.
#[derive(Debug, Clone)]
pub struct EnvFile {
    pub id: String,
    pub path: String,
    pub relative_path: String,
    pub filename: String,
    pub variant: EnvFileVariant,
    pub variables: Vec<EnvVariable>,
    pub is_manually_added: bool,
    pub linked_service_id: Option<String>,
    pub discovered_at: i64,
    pub last_read_at: i64,
}

impl EnvFile {
    /// An environment file with a fresh id, discovered and read now, linked
    /// to no service.
    pub fn new(
        path: String,
        relative_path: String,
        filename: String,
        variant: EnvFileVariant,
        variables: Vec<EnvVariable>,
        is_manually_added: bool,
    ) -> (file: Self)
        ensures
            file.id@.len() == 36,
            file.path == path,
            file.relative_path == relative_path,
            file.filename == filename,
            file.variant == variant,
            file.variables == variables,
            file.is_manually_added == is_manually_added,
            file.linked_service_id is None,
            file.discovered_at == file.last_read_at,
    {
        let now = now_millis();
        EnvFile {
            id: fresh_id(),
            path,
            relative_path,
            filename,
            variant,
            variables,
            is_manually_added,
            linked_service_id: None,
            discovered_at: now,
            last_read_at: now,
        }
    }
}

#[derive(Debug, Clone)]
pub struct EnvComparison {
    pub base_file_id: String,
    pub example_file_id: String,
    pub missing_in_base: Vec<String>,
    pub extra_in_base: Vec<String>,
    pub common_keys: Vec<String>,
}

#[derive(Clone, Copy, Debug, PartialEq, Eq, Structural)]
pub enum TerminalPreset {
    WindowsTerminal,
    PowerShell,
    Cmd,
    Warp,
    MacTerminal,
    ITerm2,
    Custom,
}

impl TerminalPreset {
    /// The terminal a platform starts out with.
    pub open spec fn spec_default_for(platform: Platform) -> TerminalPreset {
        match platform {
            Platform::Windows => TerminalPreset::WindowsTerminal,
            Platform::MacOs => TerminalPreset::MacTerminal,
            Platform::Linux => TerminalPreset::Custom,
        }
    }

    /// The terminal a platform starts out with.
    #[verifier::when_used_as_spec(spec_default_for)]
    pub fn default_for(platform: Platform) -> (preset: TerminalPreset)
        ensures
            preset == TerminalPreset::spec_default_for(platform),
    {
        match platform {
            Platform::Windows => TerminalPreset::WindowsTerminal,
            Platform::MacOs => TerminalPreset::MacTerminal,
            Platform::Linux => TerminalPreset::Custom,
        }
    }
}

#[derive(Debug, Clone)]
pub struct TerminalConfig {
    pub preset: TerminalPreset,
    pub custom_path: String,
    pub custom_args: Vec<String>,
}

impl TerminalConfig {
    /// The platform's default terminal, with no custom path or arguments.
    pub fn default_for(platform: Platform) -> (config: Self)
        ensures
            config.preset == TerminalPreset::default_for(platform),
            config.custom_path@.len() == 0,
            config.custom_args@.len() == 0,
    {
        TerminalConfig {
            preset: TerminalPreset::default_for(platform),
            custom_path: String::new(),
            custom_args: Vec::new(),
        }
    }
}

#[derive(Clone, Copy, Debug, PartialEq, Eq, Structural)]
pub enum Theme {
    Light,
    Dark,
    System,
}

#[derive(Debug, Clone)]
pub struct AppearanceConfig {
    pub theme: Theme,
}

impl Default for AppearanceConfig {
    fn default() -> (config: Self)
        ensures
            config.theme == Theme::System,
    {
        AppearanceConfig { theme: Theme::System }
    }
}

#[derive(Clone, Copy, Debug, PartialEq, Eq, Structural)]
pub enum LaunchMethod {
    Clipboard,
    External,
    Integrated,
}

#[derive(Debug, Clone)]
pub struct DefaultsConfig {
    pub launch_method: LaunchMethod,
}

impl Default for DefaultsConfig {
    fn default() -> (config: Self)
        ensures
            config.launch_method == LaunchMethod::Integrated,
    {
        DefaultsConfig { launch_method: LaunchMethod::Integrated }
    }
}

#[derive(Debug, Clone)]
pub struct AppSettings {
    pub terminal: TerminalConfig,
    pub appearance: AppearanceConfig,
    pub defaults: DefaultsConfig,
    pub scripts_config: ScriptsConfig,
}

impl AppSettings {
    /// The settings a fresh installation starts with on `platform`.
    pub fn default_for(platform: Platform) -> (settings: Self)
        ensures
            settings.terminal.preset == TerminalPreset::default_for(platform),
            settings.terminal.custom_path@.len() == 0,
            settings.terminal.custom_args@.len() == 0,
            settings.appearance.theme == Theme::System,
            settings.defaults.launch_method == LaunchMethod::Integrated,
            settings.scripts_config.main_folder is None,
            texts(settings.scripts_config.scan_extensions@) == scan_extension_texts(),
            texts(settings.scripts_config.ignored_patterns@) == ignored_pattern_texts(),
            !settings.scripts_config.auto_scan_on_startup,
    {
        AppSettings {
            terminal: TerminalConfig::default_for(platform),
            appearance: AppearanceConfig::default(),
            defaults: DefaultsConfig::default(),
            scripts_config: ScriptsConfig::default(),
        }
    }
}

#[derive(Debug)]
pub struct CreateProjectInput {
    pub name: String,
    pub root_path: String,
    pub description: Option<String>,
    pub image_path: Option<String>,
}

#[derive(Debug)]
pub struct UpdateProjectInput {
    pub name: Option<String>,
    pub root_path: Option<String>,
    pub description: Option<String>,
    pub image_path: Option<String>,
}

#[derive(Debug)]
pub struct CreateServiceInput {
    pub name: String,
    pub working_dir: String,
    pub command: String,
    pub modes: Option<Vec<(String, String)>>,
    pub default_mode: Option<String>,
    pub extra_args: Option<String>,
    pub arg_presets: Option<Vec<(String, String)>>,
    pub default_arg_preset: Option<String>,
    pub color: Option<String>,
    pub port: Option<u16>,
    pub env_vars: Option<Vec<(String, String)>>,
}

#[derive(Debug)]
pub struct UpdateServiceInput {
    pub name: Option<String>,
    pub working_dir: Option<String>,
    pub command: Option<String>,
    pub modes: Option<Vec<(String, String)>>,
    pub default_mode: Option<String>,
    pub extra_args: Option<String>,
    pub arg_presets: Option<Vec<(String, String)>>,
    pub default_arg_preset: Option<String>,
    pub color: Option<String>,
    pub port: Option<u16>,
    pub env_vars: Option<Vec<(String, String)>>,
}

#[derive(Debug)]
pub struct CreateScriptInput {
    pub name: String,
    pub description: Option<String>,
    pub command: String,
    pub script_path: Option<String>,
    pub working_dir: String,
    pub color: Option<String>,
    pub linked_service_ids: Option<Vec<String>>,
}

#[derive(Debug)]
pub struct UpdateScriptInput {
    pub name: Option<String>,
    pub description: Option<String>,
    pub command: Option<String>,
    pub script_path: Option<String>,
    pub working_dir: Option<String>,
    pub color: Option<String>,
    pub linked_service_ids: Option<Vec<String>>,
}

#[derive(Debug)]
pub struct DiscoverEnvFilesInput {
    pub force: bool,
}

#[derive(Debug)]
pub struct AddEnvFileInput {
    pub path: String,
}

#[derive(Debug)]
pub struct LinkEnvToServiceInput {
    pub service_id: Option<String>,
}

/// The lifecycle state of a service.
#[derive(Clone, Copy, Debug, PartialEq, Eq, Structural)]
pub enum ServiceStatus {
    Stopped,
    Starting,
    Running,
    Error,
}

#[derive(Debug, Clone)]
pub struct ServiceState {
    pub service_id: String,
    pub status: ServiceStatus,
    pub pid: Option<u32>,
    pub active_mode: Option<String>,
    pub active_arg_preset: Option<String>,
}

/// The output stream a log line was read from.
#[derive(Clone, Copy, Debug, PartialEq, Eq, Structural)]
pub enum LogStream {
    Stdout,
    Stderr,
}

/// One captured line of output. The time is milliseconds since the Unix epoch.
#[derive(Debug, Clone)]
pub struct LogEntry {
    pub timestamp: i64,
    pub stream: LogStream,
    pub content: String,
}

#[derive(Debug, Clone)]
pub struct ServiceLogPayload {
    pub service_id: String,
    pub stream: LogStream,
    pub content: String,
}

#[derive(Debug, Clone)]
pub struct ServiceStatusPayload {
    pub service_id: String,
    pub status: ServiceStatus,
    pub pid: Option<u32>,
    pub active_mode: Option<String>,
    pub active_arg_preset: Option<String>,
}

#[derive(Debug, Clone)]
pub struct ServiceExitPayload {
    pub service_id: String,
    pub exit_code: Option<i32>,
}

/// The lifecycle state of a one-shot script.
#[derive(Clone, Copy, Debug, PartialEq, Eq, Structural)]
pub enum ScriptStatus {
    Idle,
    Running,
    Completed,
    Failed,
}

#[derive(Debug, Clone)]
pub struct ScriptLogPayload {
    pub script_id: String,
    pub stream: LogStream,
    pub content: String,
}

#[derive(Debug, Clone)]
pub struct ScriptStatusPayload {
    pub script_id: String,
    pub status: ScriptStatus,
    pub pid: Option<u32>,
}

#[derive(Debug, Clone)]
pub struct ScriptExitPayload {
    pub script_id: String,
    pub exit_code: Option<i32>,
    pub success: bool,
}

#[derive(Clone, Copy, Debug, PartialEq, Eq, Structural)]
pub enum ScriptParamType {
    String,
    Bool,
    Number,
    Enum,
    Path,
}

#[derive(Debug, Clone)]
pub struct ScriptParameter {
    pub name: String,
    pub param_type: ScriptParamType,
    pub short_flag: Option<String>,
    pub long_flag: Option<String>,
    pub description: Option<String>,
    pub default_value: Option<String>,
    pub required: bool,
    pub enum_values: Vec<String>,
    pub nargs: Option<String>,
}

#[derive(Debug, Clone)]
pub struct ParameterPreset {
    pub id: String,
    pub name: String,
    pub description: Option<String>,
    pub values: Vec<(String, String)>,
    pub enabled: Vec<(String, bool)>,
}

/// A script that belongs to no project. Times are milliseconds since the
/// Unix epoch.
#[derive(Debug, Clone)]
pub struct GlobalScript {
    pub id: String,
    pub name: String,
    pub description: Option<String>,
    pub command: String,
    pub script_path: Option<String>,
    pub working_dir: Option<String>,
    pub color: Option<String>,
    pub folder_id: Option<String>,
    pub tags: Vec<String>,
    pub parameters: Vec<ScriptParameter>,
    pub parameter_presets: Vec<ParameterPreset>,
    pub default_preset_id: Option<String>,
    pub env_vars: Option<Vec<(String, String)>>,
    pub created_at: i64,
    pub updated_at: i64,
    pub order: u32,
    pub auto_discovered: bool,
}

impl GlobalScript {
    /// A global script with a fresh id, created and updated now, without
    /// parameters.
    pub fn new(name: String, command: String, working_dir: Option<String>) -> (script: Self)
        ensures
            script.id@.len() == 36,
            script.name == name,
            script.command == command,
            script.working_dir == working_dir,
            script.description is None,
            script.script_path is None,
            script.color is None,
            script.folder_id is None,
            script.tags@.len() == 0,
            script.parameters@.len() == 0,
            script.parameter_presets@.len() == 0,
            script.default_preset_id is None,
            script.env_vars is None,
            script.created_at == script.updated_at,
            script.order == 0,
            !script.auto_discovered,
    {
        let now = now_millis();
        GlobalScript {
            id: fresh_id(),
            name,
            description: None,
            command,
            script_path: None,
            working_dir,
            color: None,
            folder_id: None,
            tags: Vec::new(),
            parameters: Vec::new(),
            parameter_presets: Vec::new(),
            default_preset_id: None,
            env_vars: None,
            created_at: now,
            updated_at: now,
            order: 0,
            auto_discovered: false,
        }
    }
}

#[derive(Clone, Copy, Debug, PartialEq, Eq, Structural)]
pub enum FolderType {
    Project,
    Script,
}

#[derive(Debug, Clone)]
pub struct VirtualFolder {
    pub id: String,
    pub name: String,
    pub color: Option<String>,
    pub icon: Option<String>,
    pub order: Option<u32>,
    pub folder_type: FolderType,
}

impl VirtualFolder {
    /// A folder with a fresh id and no colour, icon or order.
    pub fn new(name: String, folder_type: FolderType) -> (folder: Self)
        ensures
            folder.id@.len() == 36,
            folder.name == name,
            folder.folder_type == folder_type,
            folder.color is None,
            folder.icon is None,
            folder.order is None,
    {
        VirtualFolder { id: fresh_id(), name, color: None, icon: None, order: None, folder_type }
    }
}

#[derive(Clone, Copy, Debug, PartialEq, Eq, Structural)]
pub enum GroupExecutionMode {
    Parallel,
    Sequential,
}

#[derive(Debug, Clone)]
pub struct ScriptGroup {
    pub id: String,
    pub name: String,
    pub description: Option<String>,
    pub script_ids: Vec<String>,
    pub execution_mode: GroupExecutionMode,
    pub stop_on_failure: bool,
    pub folder_id: Option<String>,
    pub order: u32,
}

impl ScriptGroup {
    /// An empty group with a fresh id that stops on the first failure.
    pub fn new(name: String, execution_mode: GroupExecutionMode) -> (group: Self)
        ensures
            group.id@.len() == 36,
            group.name == name,
            group.execution_mode == execution_mode,
            group.description is None,
            group.script_ids@.len() == 0,
            group.stop_on_failure,
            group.folder_id is None,
            group.order == 0,
    {
        ScriptGroup {
            id: fresh_id(),
            name,
            description: None,
            script_ids: Vec::new(),
            execution_mode,
            stop_on_failure: true,
            folder_id: None,
            order: 0,
        }
    }
}

/// One run of a global script. Times are milliseconds since the Unix epoch.
#[derive(Debug, Clone)]
pub struct ExecutionRecord {
    pub id: String,
    pub script_id: String,
    pub started_at: i64,
    pub finished_at: Option<i64>,
    pub duration_ms: Option<u64>,
    pub success: bool,
    pub exit_code: Option<i32>,
    pub parameters_used: Vec<(String, String)>,
    pub preset_name: Option<String>,
}

impl ExecutionRecord {
    /// The record of a run that starts now and has not finished.
    pub fn new(script_id: String) -> (record: Self)
        ensures
            record.id@.len() == 36,
            record.script_id == script_id,
            record.finished_at is None,
            record.duration_ms is None,
            !record.success,
            record.exit_code is None,
            record.parameters_used@.len() == 0,
            record.preset_name is None,
    {
        ExecutionRecord {
            id: fresh_id(),
            script_id,
            started_at: now_millis(),
            finished_at: None,
            duration_ms: None,
            success: false,
            exit_code: None,
            parameters_used: Vec::new(),
            preset_name: None,
        }
    }
}

#[derive(Debug, Clone)]
pub struct ScriptsConfig {
    pub main_folder: Option<String>,
    pub scan_extensions: Vec<String>,
    pub ignored_patterns: Vec<String>,
    pub auto_scan_on_startup: bool,
}

/// The texts of a list of strings.
pub open spec fn texts(list: Seq<String>) -> Seq<Seq<char>> {
    list.map_values(|s: String| s@)
}

/// The file extensions that a scan looks for unless told otherwise.
pub open spec fn scan_extension_texts() -> Seq<Seq<char>> {
    seq![
        "sh"@,
        "bash"@,
        "zsh"@,
        "ps1"@,
        "bat"@,
        "cmd"@,
        "py"@,
        "js"@,
        "ts"@,
        "rb"@,
        "pl"@,
    ]
}

/// The path fragments that a scan skips unless told otherwise.
pub open spec fn ignored_pattern_texts() -> Seq<Seq<char>> {
    seq!["node_modules"@, ".git"@, "target"@, "__pycache__"@, ".venv"@]
}

/// The file extensions that a scan looks for unless told otherwise.
pub fn default_scan_extensions() -> (extensions: Vec<String>)
    ensures
        texts(extensions@) == scan_extension_texts(),
{
    let mut extensions: Vec<String> = Vec::new();
    extensions.push("sh".to_owned());
    extensions.push("bash".to_owned());
    extensions.push("zsh".to_owned());
    extensions.push("ps1".to_owned());
    extensions.push("bat".to_owned());
    extensions.push("cmd".to_owned());
    extensions.push("py".to_owned());
    extensions.push("js".to_owned());
    extensions.push("ts".to_owned());
    extensions.push("rb".to_owned());
    extensions.push("pl".to_owned());
    assert(texts(extensions@) =~= scan_extension_texts());
    extensions
}

/// The path fragments that a scan skips unless told otherwise.
pub fn default_ignored_patterns() -> (patterns: Vec<String>)
    ensures
        texts(patterns@) == ignored_pattern_texts(),
{
    let mut patterns: Vec<String> = Vec::new();
    patterns.push("node_modules".to_owned());
    patterns.push(".git".to_owned());
    patterns.push("target".to_owned());
    patterns.push("__pycache__".to_owned());
    patterns.push(".venv".to_owned());
    assert(texts(patterns@) =~= ignored_pattern_texts());
    patterns
}

impl Default for ScriptsConfig {
    fn default() -> (config: Self)
        ensures
            config.main_folder is None,
            texts(config.scan_extensions@) == scan_extension_texts(),
            texts(config.ignored_patterns@) == ignored_pattern_texts(),
            !config.auto_scan_on_startup,
    {
        ScriptsConfig {
            main_folder: None,
            scan_extensions: default_scan_extensions(),
            ignored_patterns: default_ignored_patterns(),
            auto_scan_on_startup: false,
        }
    }
}

#[derive(Debug, Clone)]
pub struct DiscoveredScript {
    pub path: String,
    pub name: String,
    pub description: Option<String>,
    pub extension: String,
}

#[derive(Debug)]
pub struct CreateGlobalScriptInput {
    pub name: String,
    pub description: Option<String>,
    pub command: String,
    pub script_path: Option<String>,
    pub working_dir: Option<String>,
    pub color: Option<String>,
    pub folder_id: Option<String>,
    pub tags: Option<Vec<String>>,
    pub parameters: Option<Vec<ScriptParameter>>,
    pub parameter_presets: Option<Vec<ParameterPreset>>,
    pub env_vars: Option<Vec<(String, String)>>,
}

#[derive(Debug)]
pub struct UpdateGlobalScriptInput {
    pub name: Option<String>,
    pub description: Option<String>,
    pub command: Option<String>,
    pub script_path: Option<String>,
    pub working_dir: Option<String>,
    pub color: Option<String>,
    pub folder_id: Option<String>,
    pub tags: Option<Vec<String>>,
    pub parameters: Option<Vec<ScriptParameter>>,
    pub parameter_presets: Option<Vec<ParameterPreset>>,
    pub default_preset_id: Option<String>,
    pub env_vars: Option<Vec<(String, String)>>,
}

#[derive(Debug)]
pub struct CreateFolderInput {
    pub name: String,
    pub color: Option<String>,
    pub icon: Option<String>,
    pub order: Option<u32>,
    pub folder_type: FolderType,
}

#[derive(Debug)]
pub struct UpdateFolderInput {
    pub name: Option<String>,
    pub color: Option<String>,
    pub icon: Option<String>,
    pub order: Option<u32>,
}

#[derive(Debug)]
pub struct CreateScriptGroupInput {
    pub name: String,
    pub description: Option<String>,
    pub script_ids: Vec<String>,
    pub execution_mode: GroupExecutionMode,
    pub stop_on_failure: Option<bool>,
    pub folder_id: Option<String>,
}

#[derive(Debug)]
pub struct UpdateScriptGroupInput {
    pub name: Option<String>,
    pub description: Option<String>,
    pub script_ids: Option<Vec<String>>,
    pub execution_mode: Option<GroupExecutionMode>,
    pub stop_on_failure: Option<bool>,
    pub folder_id: Option<String>,
}

/// An export of scripts, folders and groups. The time is milliseconds since
/// the Unix epoch.
#[derive(Debug, Clone)]
pub struct ScriptExport {
    pub version: String,
    pub scripts: Vec<GlobalScript>,
    pub folders: Vec<VirtualFolder>,
    pub groups: Vec<ScriptGroup>,
    pub exported_at: i64,
}

#[derive(Debug, Clone)]
pub struct ImportResult {
    pub scripts_added: u32,
    pub folders_added: u32,
    pub groups_added: u32,
    pub skipped: u32,
}

} // verus!
