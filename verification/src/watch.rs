//! The exit watch: how the natural end of a process is noticed and reported.
//!
//! One watch runs per launched process. Each round it first asks
//! `watch_gate`; while that says `Watching` it pauses for
//! `WATCH_INTERVAL_MS`, makes a non-blocking wait on the child that is
//! registered for the entity, and hands the outcome to `watch_tick`, all
//! under the lock that guards the engine. It ends as soon as a round says
//! anything but `Watching`.

use crate::events::{event_views, exit_event, exited_event, EngineEvent, EventView};
use crate::lifecycle::Step;
use crate::process_manager::{ManagerView, ProcessManager};
use crate::registry::{ProcessCategory, ProcessInfo};
use vstd::prelude::*;

verus! {

/// The pause between two polls of a child, in milliseconds.
pub const WATCH_INTERVAL_MS: u64 = 100;

/// What a non-blocking wait on a child found.
#[derive(Clone, Copy, Debug, PartialEq, Eq, Structural)]
pub enum WaitOutcome {
    /// The child has not ended.
    StillRunning,
    /// The child has ended, with this exit code if it has one.
    Exited(Option<i32>),
    /// The wait itself went wrong. The child counts as ended abnormally, so
    /// that the watch does not spin forever.
    WaitFailed,
}

impl WaitOutcome {
    /// Whether the outcome makes the watch take the entity off the registry.
    pub open spec fn is_final(self) -> bool {
        self != WaitOutcome::StillRunning
    }

    /// The exit code that is reported for the outcome.
    pub open spec fn exit_code(self) -> Option<i32> {
        match self {
            WaitOutcome::Exited(code) => code,
            _ => None,
        }
    }
}

/// The state of an exit watch after a round.
#[derive(Clone, Copy, Debug, PartialEq, Eq, Structural)]
pub enum WatchState {
    /// The child is still running: go on.
    Watching,
    /// The child has ended and its terminal events are to be reported.
    Reporting,
    /// Shutdown has begun: end without reporting.
    Suppressed,
    /// The entity was taken off the registry by someone else: end silently.
    Removed,
}

/// What one round of an exit watch came to.
#[derive(Debug)]
pub struct WatchReport<C> {
    pub state: WatchState,
    /// The events to report, in order. Empty unless `state` is `Reporting`.
    pub events: Vec<EngineEvent>,
    /// The handle that this round took off the registry, if it took one.
    pub handle: Option<ProcessInfo<C>>,
}

impl<C> ManagerView<C> {
    /// The state of the watch at the top of a round.
    pub open spec fn gate(self) -> WatchState {
        if self.shutdown {
            WatchState::Suppressed
        } else {
            WatchState::Watching
        }
    }

    /// Whether a round with `outcome` takes the entity off the registry.
    pub open spec fn tick_removes(
        self,
        category: ProcessCategory,
        id: Seq<char>,
        outcome: WaitOutcome,
    ) -> bool {
        self.is_running(category, id) && outcome.is_final()
    }

    /// The state of the watch after a round with `outcome`.
    pub open spec fn tick_state(
        self,
        category: ProcessCategory,
        id: Seq<char>,
        outcome: WaitOutcome,
    ) -> WatchState {
        if !self.is_running(category, id) {
            WatchState::Removed
        } else if !outcome.is_final() {
            WatchState::Watching
        } else if self.shutdown {
            WatchState::Suppressed
        } else {
            WatchState::Reporting
        }
    }

    /// The engine's state after a round with `outcome`.
    pub open spec fn after_tick(
        self,
        category: ProcessCategory,
        id: Seq<char>,
        outcome: WaitOutcome,
    ) -> Self {
        if self.tick_removes(category, id, outcome) {
            self.evict(category, id)
        } else {
            self
        }
    }

    /// The events of a round with `outcome`: the terminal status and the
    /// exit of the entity when the round reports, none otherwise.
    pub open spec fn tick_events(
        self,
        category: ProcessCategory,
        id: Seq<char>,
        outcome: WaitOutcome,
    ) -> Seq<EventView> {
        if self.tick_removes(category, id, outcome) {
            self.visible(
                ManagerView::<C>::exit_report(
                    category,
                    self.handle(category, id),
                    outcome.exit_code(),
                ),
            )
        } else {
            Seq::empty()
        }
    }
}

impl<C> ProcessManager<C> {
    /// The top of a round of an exit watch: `Suppressed` once shutdown has
    /// begun, `Watching` before.
    pub fn watch_gate(&self) -> (state: WatchState)
        ensures
            state == self@.gate(),
    {
        if self.get_shutdown_flag() {
            WatchState::Suppressed
        } else {
            WatchState::Watching
        }
    }

    /// One round of the exit watch of the entity `id` of `category`, with
    /// what the wait on its child found.
    ///
    /// Where the entity is no longer registered, the round is `Removed` and
    /// changes nothing, whatever `outcome` says. Where the child still runs,
    /// the round is `Watching`. Otherwise the handle leaves the registry and
    /// is returned; the round is `Reporting`, with the terminal status and
    /// then the exit event, unless shutdown has begun in the meantime: then
    /// it is `Suppressed` and reports nothing.
    pub fn watch_tick(&mut self, category: ProcessCategory, id: &str, outcome: WaitOutcome) -> (report:
        WatchReport<C>)
        requires
            old(self).wf(),
        ensures
            final(self).wf(),
            old(self)@.apply(Step::Tick { category, id: id@, outcome }) == (
                final(self)@,
                event_views(report.events@),
            ),
            final(self)@ == old(self)@.after_tick(category, id@, outcome),
            report.state == old(self)@.tick_state(category, id@, outcome),
            event_views(report.events@) == old(self)@.tick_events(category, id@, outcome),
            report.handle is Some <==> old(self)@.tick_removes(category, id@, outcome),
            report.handle is Some ==> report.handle->Some_0@ == old(self)@.handle(category, id@),
    {
        let ghost before = self@;
        proof {
            self.lemma_consistent();
        }
        if !self.is_running_in(category, id) {
            let events: Vec<EngineEvent> = Vec::new();
            assert(event_views(events@) =~= Seq::empty());
            return WatchReport { state: WatchState::Removed, events, handle: None };
        }
        let exit_code = match outcome {
            WaitOutcome::StillRunning => {
                let events: Vec<EngineEvent> = Vec::new();
                assert(event_views(events@) =~= Seq::empty());
                return WatchReport { state: WatchState::Watching, events, handle: None };
            },
            WaitOutcome::Exited(code) => code,
            WaitOutcome::WaitFailed => None,
        };
        let removed = self.remove(category, id);
        let handle = match removed {
            Some(handle) => handle,
            None => {
                proof {
                    assert(false);
                }
                vstd::pervasive::unreached()
            },
        };
        let mut events: Vec<EngineEvent> = Vec::new();
        let state = if self.get_shutdown_flag() {
            assert(event_views(events@) =~= Seq::empty());
            WatchState::Suppressed
        } else {
            events.push(
                exited_event(
                    category,
                    id,
                    exit_code,
                    &handle.active_mode,
                    &handle.active_arg_preset,
                ),
            );
            events.push(exit_event(category, id, exit_code));
            assert(before.table(category).running.contains_key(id@));
            assert(handle@.service_id == id@);
            assert(event_views(events@) =~= ManagerView::<C>::exit_report(
                category,
                handle@,
                exit_code,
            ));
            WatchState::Reporting
        };
        WatchReport { state, events, handle: Some(handle) }
    }
}

} // verus!
