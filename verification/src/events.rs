//! The events that the engine reports, and the sink that receives them.

use crate::models::{
    LogStream, ScriptExitPayload, ScriptLogPayload, ScriptStatus, ScriptStatusPayload,
    ServiceExitPayload, ServiceLogPayload, ServiceStatus, ServiceStatusPayload,
};
use crate::registry::{opt_text, ProcessCategory};
use vstd::prelude::*;

verus! {

/// One report of the engine. A log line, a lifecycle transition or an exit,
/// of a service, a project script or a global script.
#[derive(Debug, Clone)]
pub enum EngineEvent {
    ServiceLog(ServiceLogPayload),
    ServiceStatus(ServiceStatusPayload),
    ServiceExit(ServiceExitPayload),
    ScriptLog(ScriptLogPayload),
    ScriptStatus(ScriptStatusPayload),
    ScriptExit(ScriptExitPayload),
    GlobalScriptLog(ScriptLogPayload),
    GlobalScriptStatus(ScriptStatusPayload),
    GlobalScriptExit(ScriptExitPayload),
}

/// The lifecycle state that a status event reports.
pub enum Lifecycle {
    Service(ServiceStatus),
    Script(ScriptStatus),
}

impl Lifecycle {
    /// The states in which a launch ends: `Stopped` for a service,
    /// `Completed` and `Failed` for a script.
    pub open spec fn is_terminal(self) -> bool {
        match self {
            Lifecycle::Service(s) => s == ServiceStatus::Stopped,
            Lifecycle::Script(s) => s == ScriptStatus::Completed || s == ScriptStatus::Failed,
        }
    }
}

/// An event as a mathematical value.
pub enum EventView {
    Log { category: ProcessCategory, id: Seq<char>, stream: LogStream, text: Seq<char> },
    Status {
        category: ProcessCategory,
        id: Seq<char>,
        state: Lifecycle,
        pid: Option<u32>,
        active_mode: Option<Seq<char>>,
        active_arg_preset: Option<Seq<char>>,
    },
    Exit { category: ProcessCategory, id: Seq<char>, exit_code: Option<i32>, success: bool },
}

impl EventView {
    /// The category of the entity that the event is about.
    pub open spec fn category(self) -> ProcessCategory {
        match self {
            EventView::Log { category, .. } => category,
            EventView::Status { category, .. } => category,
            EventView::Exit { category, .. } => category,
        }
    }

    /// The id of the entity that the event is about.
    pub open spec fn id(self) -> Seq<char> {
        match self {
            EventView::Log { id, .. } => id,
            EventView::Status { id, .. } => id,
            EventView::Exit { id, .. } => id,
        }
    }

    /// Whether the event is about the entity `id` of `category`.
    pub open spec fn concerns(self, category: ProcessCategory, id: Seq<char>) -> bool {
        self.category() == category && self.id() == id
    }

    /// Whether the event reports a terminal lifecycle state.
    pub open spec fn is_terminal_status(self) -> bool {
        match self {
            EventView::Status { state, .. } => state.is_terminal(),
            _ => false,
        }
    }
}

/// Whether an exit code stands for success: only the code zero does.
pub open spec fn spec_exit_success(exit_code: Option<i32>) -> bool {
    exit_code == Some(0i32)
}

/// Whether an exit code stands for success: only the code zero does.
#[verifier::when_used_as_spec(spec_exit_success)]
pub fn exit_success(exit_code: Option<i32>) -> (success: bool)
    ensures
        success == spec_exit_success(exit_code),
{
    match exit_code {
        Some(code) => code == 0,
        None => false,
    }
}

impl View for EngineEvent {
    type V = EventView;

    open spec fn view(&self) -> EventView {
        match *self {
            EngineEvent::ServiceLog(p) => EventView::Log {
                category: ProcessCategory::Service,
                id: p.service_id@,
                stream: p.stream,
                text: p.content@,
            },
            EngineEvent::ServiceStatus(p) => EventView::Status {
                category: ProcessCategory::Service,
                id: p.service_id@,
                state: Lifecycle::Service(p.status),
                pid: p.pid,
                active_mode: opt_text(p.active_mode),
                active_arg_preset: opt_text(p.active_arg_preset),
            },
            EngineEvent::ServiceExit(p) => EventView::Exit {
                category: ProcessCategory::Service,
                id: p.service_id@,
                exit_code: p.exit_code,
                success: exit_success(p.exit_code),
            },
            EngineEvent::ScriptLog(p) => EventView::Log {
                category: ProcessCategory::ProjectScript,
                id: p.script_id@,
                stream: p.stream,
                text: p.content@,
            },
            EngineEvent::ScriptStatus(p) => EventView::Status {
                category: ProcessCategory::ProjectScript,
                id: p.script_id@,
                state: Lifecycle::Script(p.status),
                pid: p.pid,
                active_mode: None,
                active_arg_preset: None,
            },
            EngineEvent::ScriptExit(p) => EventView::Exit {
                category: ProcessCategory::ProjectScript,
                id: p.script_id@,
                exit_code: p.exit_code,
                success: p.success,
            },
            EngineEvent::GlobalScriptLog(p) => EventView::Log {
                category: ProcessCategory::GlobalScript,
                id: p.script_id@,
                stream: p.stream,
                text: p.content@,
            },
            EngineEvent::GlobalScriptStatus(p) => EventView::Status {
                category: ProcessCategory::GlobalScript,
                id: p.script_id@,
                state: Lifecycle::Script(p.status),
                pid: p.pid,
                active_mode: None,
                active_arg_preset: None,
            },
            EngineEvent::GlobalScriptExit(p) => EventView::Exit {
                category: ProcessCategory::GlobalScript,
                id: p.script_id@,
                exit_code: p.exit_code,
                success: p.success,
            },
        }
    }
}

/// The events of a list, as mathematical values.
pub open spec fn event_views(events: Seq<EngineEvent>) -> Seq<EventView> {
    events.map_values(|e: EngineEvent| e@)
}

/// A copy of an optional string.
pub fn clone_opt_text(text: &Option<String>) -> (copy: Option<String>)
    ensures
        opt_text(copy) == opt_text(*text),
{
    match text {
        Some(t) => Some(t.clone()),
        None => None,
    }
}

/// The status event of an entity: the lifecycle state `state`, seen from the
/// entity's category. A service reports its active mode and preset; a script
/// has none.
pub open spec fn status_view(
    category: ProcessCategory,
    id: Seq<char>,
    state: Lifecycle,
    pid: Option<u32>,
    active_mode: Option<Seq<char>>,
    active_arg_preset: Option<Seq<char>>,
) -> EventView {
    match category {
        ProcessCategory::Service => EventView::Status {
            category,
            id,
            state,
            pid,
            active_mode,
            active_arg_preset,
        },
        _ => EventView::Status {
            category,
            id,
            state,
            pid,
            active_mode: None,
            active_arg_preset: None,
        },
    }
}

/// The state in which an entity of `category` is once its process has been
/// created.
pub open spec fn running_state(category: ProcessCategory) -> Lifecycle {
    match category {
        ProcessCategory::Service => Lifecycle::Service(ServiceStatus::Running),
        _ => Lifecycle::Script(ScriptStatus::Running),
    }
}

/// The state that is reported before the process of an entity of `category`
/// is created: a service is `Starting`, a script goes straight to `Running`.
pub open spec fn announced_state(category: ProcessCategory) -> Lifecycle {
    match category {
        ProcessCategory::Service => Lifecycle::Service(ServiceStatus::Starting),
        _ => Lifecycle::Script(ScriptStatus::Running),
    }
}

/// The state that a stop on request leaves an entity of `category` in: a
/// service is `Stopped`, a script is `Failed`. It is never `Completed`.
pub open spec fn stopped_state(category: ProcessCategory) -> Lifecycle {
    match category {
        ProcessCategory::Service => Lifecycle::Service(ServiceStatus::Stopped),
        _ => Lifecycle::Script(ScriptStatus::Failed),
    }
}

/// The state that an entity of `category` is in after its process ended by
/// itself with `exit_code`: a service is `Stopped`; a script is `Completed`
/// if the code is zero and `Failed` otherwise.
pub open spec fn exited_state(category: ProcessCategory, exit_code: Option<i32>) -> Lifecycle {
    match category {
        ProcessCategory::Service => Lifecycle::Service(ServiceStatus::Stopped),
        _ => if exit_success(exit_code) {
            Lifecycle::Script(ScriptStatus::Completed)
        } else {
            Lifecycle::Script(ScriptStatus::Failed)
        },
    }
}

fn status_event(
    category: ProcessCategory,
    id: &str,
    service_status: ServiceStatus,
    script_status: ScriptStatus,
    pid: Option<u32>,
    active_mode: &Option<String>,
    active_arg_preset: &Option<String>,
) -> (event: EngineEvent)
    ensures
        event@ == status_view(
            category,
            id@,
            match category {
                ProcessCategory::Service => Lifecycle::Service(service_status),
                _ => Lifecycle::Script(script_status),
            },
            pid,
            opt_text(*active_mode),
            opt_text(*active_arg_preset),
        ),
{
    match category {
        ProcessCategory::Service => EngineEvent::ServiceStatus(
            ServiceStatusPayload {
                service_id: id.to_owned(),
                status: service_status,
                pid,
                active_mode: clone_opt_text(active_mode),
                active_arg_preset: clone_opt_text(active_arg_preset),
            },
        ),
        ProcessCategory::ProjectScript => EngineEvent::ScriptStatus(
            ScriptStatusPayload { script_id: id.to_owned(), status: script_status, pid },
        ),
        ProcessCategory::GlobalScript => EngineEvent::GlobalScriptStatus(
            ScriptStatusPayload { script_id: id.to_owned(), status: script_status, pid },
        ),
    }
}

/// The event that announces a launch, before the process is created.
pub fn announced_event(
    category: ProcessCategory,
    id: &str,
    active_mode: &Option<String>,
    active_arg_preset: &Option<String>,
) -> (event: EngineEvent)
    ensures
        event@ == status_view(
            category,
            id@,
            announced_state(category),
            None,
            opt_text(*active_mode),
            opt_text(*active_arg_preset),
        ),
{
    status_event(
        category,
        id,
        ServiceStatus::Starting,
        ScriptStatus::Running,
        None,
        active_mode,
        active_arg_preset,
    )
}

/// The event that reports a created process with its process id.
pub fn running_event(
    category: ProcessCategory,
    id: &str,
    pid: u32,
    active_mode: &Option<String>,
    active_arg_preset: &Option<String>,
) -> (event: EngineEvent)
    ensures
        event@ == status_view(
            category,
            id@,
            running_state(category),
            Some(pid),
            opt_text(*active_mode),
            opt_text(*active_arg_preset),
        ),
{
    status_event(
        category,
        id,
        ServiceStatus::Running,
        ScriptStatus::Running,
        Some(pid),
        active_mode,
        active_arg_preset,
    )
}

/// The terminal event of a stop on request.
pub fn stopped_event(
    category: ProcessCategory,
    id: &str,
    active_mode: &Option<String>,
    active_arg_preset: &Option<String>,
) -> (event: EngineEvent)
    ensures
        event@ == status_view(
            category,
            id@,
            stopped_state(category),
            None,
            opt_text(*active_mode),
            opt_text(*active_arg_preset),
        ),
{
    status_event(
        category,
        id,
        ServiceStatus::Stopped,
        ScriptStatus::Failed,
        None,
        active_mode,
        active_arg_preset,
    )
}

/// The terminal status event of a process that ended by itself.
pub fn exited_event(
    category: ProcessCategory,
    id: &str,
    exit_code: Option<i32>,
    active_mode: &Option<String>,
    active_arg_preset: &Option<String>,
) -> (event: EngineEvent)
    ensures
        event@ == status_view(
            category,
            id@,
            exited_state(category, exit_code),
            None,
            opt_text(*active_mode),
            opt_text(*active_arg_preset),
        ),
{
    let script_status = if exit_success(exit_code) {
        ScriptStatus::Completed
    } else {
        ScriptStatus::Failed
    };
    status_event(
        category,
        id,
        ServiceStatus::Stopped,
        script_status,
        None,
        active_mode,
        active_arg_preset,
    )
}

/// Builds the exit event of an entity whose process ended with `exit_code`.
/// Success is reported exactly for the code zero.
pub fn exit_event(category: ProcessCategory, id: &str, exit_code: Option<i32>) -> (event:
    EngineEvent)
    ensures
        event@ == (EventView::Exit {
            category,
            id: id@,
            exit_code,
            success: exit_success(exit_code),
        }),
{
    match category {
        ProcessCategory::Service => EngineEvent::ServiceExit(
            ServiceExitPayload { service_id: id.to_owned(), exit_code },
        ),
        ProcessCategory::ProjectScript => EngineEvent::ScriptExit(
            ScriptExitPayload {
                script_id: id.to_owned(),
                exit_code,
                success: exit_success(exit_code),
            },
        ),
        ProcessCategory::GlobalScript => EngineEvent::GlobalScriptExit(
            ScriptExitPayload {
                script_id: id.to_owned(),
                exit_code,
                success: exit_success(exit_code),
            },
        ),
    }
}

/// Builds the log event of one line of output.
pub fn log_event(category: ProcessCategory, id: &str, stream: LogStream, content: String) -> (event:
    EngineEvent)
    ensures
        event@ == (EventView::Log { category, id: id@, stream, text: content@ }),
{
    match category {
        ProcessCategory::Service => EngineEvent::ServiceLog(
            ServiceLogPayload { service_id: id.to_owned(), stream, content },
        ),
        ProcessCategory::ProjectScript => EngineEvent::ScriptLog(
            ScriptLogPayload { script_id: id.to_owned(), stream, content },
        ),
        ProcessCategory::GlobalScript => EngineEvent::GlobalScriptLog(
            ScriptLogPayload { script_id: id.to_owned(), stream, content },
        ),
    }
}

/// The sink that the engine reports to. Each presentation layer implements
/// it in its own way; the engine does not know who listens. A sink must be
/// safe to call from several threads at once, and must not fail: what goes
/// wrong inside it stays inside it.
pub trait ProcessEventEmitter: Send + Sync {
    fn emit_service_log(&self, service_id: &str, stream: LogStream, content: String);

    fn emit_service_status(
        &self,
        service_id: &str,
        status: ServiceStatus,
        pid: Option<u32>,
        active_mode: Option<String>,
        active_arg_preset: Option<String>,
    );

    fn emit_service_exit(&self, service_id: &str, exit_code: Option<i32>);

    fn emit_script_log(&self, script_id: &str, stream: LogStream, content: String);

    fn emit_script_status(&self, script_id: &str, status: ScriptStatus, pid: Option<u32>);

    fn emit_script_exit(&self, script_id: &str, exit_code: Option<i32>, success: bool);

    fn emit_global_script_log(&self, script_id: &str, stream: LogStream, content: String);

    fn emit_global_script_status(&self, script_id: &str, status: ScriptStatus, pid: Option<u32>);

    fn emit_global_script_exit(&self, script_id: &str, exit_code: Option<i32>, success: bool);
}

/// Hands one event to the sink, through the method that belongs to the
/// event's kind and category.
pub fn dispatch<E: ProcessEventEmitter>(emitter: &E, event: EngineEvent) {
    match event {
        EngineEvent::ServiceLog(p) => emitter.emit_service_log(
            p.service_id.as_str(),
            p.stream,
            p.content,
        ),
        EngineEvent::ServiceStatus(p) => emitter.emit_service_status(
            p.service_id.as_str(),
            p.status,
            p.pid,
            p.active_mode,
            p.active_arg_preset,
        ),
        EngineEvent::ServiceExit(p) => emitter.emit_service_exit(
            p.service_id.as_str(),
            p.exit_code,
        ),
        EngineEvent::ScriptLog(p) => emitter.emit_script_log(
            p.script_id.as_str(),
            p.stream,
            p.content,
        ),
        EngineEvent::ScriptStatus(p) => emitter.emit_script_status(
            p.script_id.as_str(),
            p.status,
            p.pid,
        ),
        EngineEvent::ScriptExit(p) => emitter.emit_script_exit(
            p.script_id.as_str(),
            p.exit_code,
            p.success,
        ),
        EngineEvent::GlobalScriptLog(p) => emitter.emit_global_script_log(
            p.script_id.as_str(),
            p.stream,
            p.content,
        ),
        EngineEvent::GlobalScriptStatus(p) => emitter.emit_global_script_status(
            p.script_id.as_str(),
            p.status,
            p.pid,
        ),
        EngineEvent::GlobalScriptExit(p) => emitter.emit_global_script_exit(
            p.script_id.as_str(),
            p.exit_code,
            p.success,
        ),
    }
}

/// Hands the events of a list to the sink, first to last.
pub fn dispatch_all<E: ProcessEventEmitter>(emitter: &E, events: Vec<EngineEvent>) {
    let mut events = events;
    while events.len() > 0
        decreases events@.len(),
    {
        let event = events.remove(0);
        dispatch(emitter, event);
    }
}

} // verus!
