//! A sink that forwards the events of global scripts into a channel, for a
//! user interface that runs in the same process.

use crate::events::ProcessEventEmitter;
use crate::models::{LogStream, ScriptStatus, ServiceStatus};
use std::sync::mpsc::Sender;
use vstd::prelude::*;

verus! {

/// The sending half of a channel of the standard library,
/// `std::sync::mpsc::Sender`. Its inside is not looked at.
#[verifier::external_type_specification]
#[verifier::external_body]
#[verifier::reject_recursive_types(T)]
pub struct ExSender<T>(Sender<T>);

/// An event of a global script, as the user interface receives it.
#[derive(Debug, Clone)]
pub enum ProcessEvent {
    Log { script_id: String, stream: LogStream, content: String },
    Status { script_id: String, status: ScriptStatus, pid: Option<u32> },
    Exit { script_id: String, exit_code: Option<i32>, success: bool },
}

/// Sends `event` into the channel.
///
/// Calls `std::sync::mpsc::Sender::send`, which fails only when the
/// receiving half is gone. The failure is dropped: a sink that cannot
/// deliver must not disturb the engine.
#[verifier::external_body]
fn send_event(tx: &Sender<ProcessEvent>, event: ProcessEvent) {
    let _ = tx.send(event);
}

/// The sink of the terminal user interface. It forwards the events of
/// global scripts and ignores those of services and project scripts.
pub struct TuiEmitter {
    tx: Sender<ProcessEvent>,
}

impl TuiEmitter {
    /// The channel that the sink sends into.
    pub closed spec fn channel(&self) -> Sender<ProcessEvent> {
        self.tx
    }

    /// A sink that sends into `tx`.
    pub fn new(tx: Sender<ProcessEvent>) -> (emitter: Self)
        ensures
            emitter.channel() == tx,
    {
        TuiEmitter { tx }
    }
}

impl ProcessEventEmitter for TuiEmitter {
    fn emit_service_log(&self, _service_id: &str, _stream: LogStream, _content: String) {
    }

    fn emit_service_status(
        &self,
        _service_id: &str,
        _status: ServiceStatus,
        _pid: Option<u32>,
        _active_mode: Option<String>,
        _active_arg_preset: Option<String>,
    ) {
    }

    fn emit_service_exit(&self, _service_id: &str, _exit_code: Option<i32>) {
    }

    fn emit_script_log(&self, _script_id: &str, _stream: LogStream, _content: String) {
    }

    fn emit_script_status(&self, _script_id: &str, _status: ScriptStatus, _pid: Option<u32>) {
    }

    fn emit_script_exit(&self, _script_id: &str, _exit_code: Option<i32>, _success: bool) {
    }

    fn emit_global_script_log(&self, script_id: &str, stream: LogStream, content: String) {
        send_event(&self.tx, ProcessEvent::Log { script_id: script_id.to_owned(), stream, content });
    }

    fn emit_global_script_status(&self, script_id: &str, status: ScriptStatus, pid: Option<u32>) {
        send_event(&self.tx, ProcessEvent::Status { script_id: script_id.to_owned(), status, pid });
    }

    fn emit_global_script_exit(&self, script_id: &str, exit_code: Option<i32>, success: bool) {
        send_event(
            &self.tx,
            ProcessEvent::Exit { script_id: script_id.to_owned(), exit_code, success },
        );
    }
}

} // verus!
