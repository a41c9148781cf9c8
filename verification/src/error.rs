//! The errors of the supervision engine.

use vstd::prelude::*;

verus! {

/// Why a launch, a stop or a kill did not go through.
#[derive(Debug, Clone)]
pub enum ProcessError {
    /// The slot of the entity is occupied; the payload is its id.
    AlreadyRunning(String),
    /// No process is registered for the entity; the payload is its id.
    NotRunning(String),
    /// The operating system refused to create the process; the payload says
    /// why.
    SpawnFailed(String),
    /// A process tree could not be terminated; the payload says why. This is
    /// logged by the caller and never returned by a launch or a stop.
    KillFailed(String),
}

/// A `ProcessError` with its text as a sequence of characters.
pub enum ProcessErrorView {
    AlreadyRunning(Seq<char>),
    NotRunning(Seq<char>),
    SpawnFailed(Seq<char>),
    KillFailed(Seq<char>),
}

impl View for ProcessError {
    type V = ProcessErrorView;

    open spec fn view(&self) -> ProcessErrorView {
        match *self {
            ProcessError::AlreadyRunning(id) => ProcessErrorView::AlreadyRunning(id@),
            ProcessError::NotRunning(id) => ProcessErrorView::NotRunning(id@),
            ProcessError::SpawnFailed(reason) => ProcessErrorView::SpawnFailed(reason@),
            ProcessError::KillFailed(reason) => ProcessErrorView::KillFailed(reason@),
        }
    }
}

impl ProcessError {
    /// The text that a message of this error starts with.
    pub open spec fn prefix(self) -> Seq<char> {
        match self {
            ProcessError::AlreadyRunning(_) => "Already running: "@,
            ProcessError::NotRunning(_) => "Not running: "@,
            ProcessError::SpawnFailed(_) => "Failed to start process: "@,
            ProcessError::KillFailed(_) => "Failed to kill process: "@,
        }
    }

    /// The payload of this error.
    pub open spec fn detail(self) -> Seq<char> {
        match self {
            ProcessError::AlreadyRunning(id) => id@,
            ProcessError::NotRunning(id) => id@,
            ProcessError::SpawnFailed(reason) => reason@,
            ProcessError::KillFailed(reason) => reason@,
        }
    }

    /// A message for the user: what went wrong, then the id or the reason.
    pub fn message(&self) -> (text: String)
        ensures
            text@ == self.prefix() + self.detail(),
    {
        match self {
            ProcessError::AlreadyRunning(id) => "Already running: ".to_owned().concat(
                id.as_str(),
            ),
            ProcessError::NotRunning(id) => "Not running: ".to_owned().concat(id.as_str()),
            ProcessError::SpawnFailed(reason) => "Failed to start process: ".to_owned().concat(
                reason.as_str(),
            ),
            ProcessError::KillFailed(reason) => "Failed to kill process: ".to_owned().concat(
                reason.as_str(),
            ),
        }
    }
}

} // verus!
