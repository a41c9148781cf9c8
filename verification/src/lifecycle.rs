//! The engine as a state machine, and what holds of every run of it.
//!
//! The caller guards the engine with one lock, so every execution is a
//! sequence of atomic steps. `Step` names them, `apply` says what one step
//! does to the state and which events it reports, and `run` chains steps.
//! The methods of the engine are stated against `apply`; the laws below are
//! proved of `apply` and `run`, and so hold of every interleaving of
//! launches, stops, exit watches, output pumps and shutdown.

use crate::error::ProcessErrorView;
use crate::events::{exited_state, EventView, Lifecycle};
use crate::models::{LogStream, ScriptStatus, ServiceStatus};
use crate::process_manager::ManagerView;
use crate::registry::{ProcessCategory, ProcessInfoView};
use crate::watch::WaitOutcome;
use vstd::prelude::*;

verus! {

/// One atomic step of the engine.
pub enum Step<C> {
    /// The first step of a launch of the entity.
    Begin {
        category: ProcessCategory,
        id: Seq<char>,
        active_mode: Option<Seq<char>>,
        active_arg_preset: Option<Seq<char>>,
    },
    /// The second step of a launch whose process was created.
    Spawned { category: ProcessCategory, handle: ProcessInfoView<C> },
    /// The second step of a launch whose process could not be created.
    SpawnFailed { category: ProcessCategory, id: Seq<char> },
    /// A stop on request.
    Stop { category: ProcessCategory, id: Seq<char> },
    /// One round of an exit watch.
    Tick { category: ProcessCategory, id: Seq<char>, outcome: WaitOutcome },
    /// One line read by an output pump.
    Line { category: ProcessCategory, id: Seq<char>, stream: LogStream, text: Seq<char> },
    /// The shutdown signal is set.
    Signal,
    /// Shutdown takes every handle off the registry.
    Drain,
}

impl<C> Step<C> {
    /// Whether the step belongs to shutdown.
    pub open spec fn is_shutdown(self) -> bool {
        self is Signal || self is Drain
    }
}

impl<C> ManagerView<C> {
    /// Whether the first step of a launch of the entity goes through.
    pub open spec fn begin_verdict(self, category: ProcessCategory, id: Seq<char>) -> Result<
        (),
        ProcessErrorView,
    > {
        if self.is_occupied(category, id) {
            Err(ProcessErrorView::AlreadyRunning(id))
        } else {
            Ok(())
        }
    }

    /// Whether a stop of the entity goes through.
    pub open spec fn stop_verdict(self, category: ProcessCategory, id: Seq<char>) -> Result<
        (),
        ProcessErrorView,
    > {
        if self.is_running(category, id) {
            Ok(())
        } else {
            Err(ProcessErrorView::NotRunning(id))
        }
    }

    /// The state after `step` and the events that the step reports.
    pub open spec fn apply(self, step: Step<C>) -> (Self, Seq<EventView>) {
        match step {
            Step::Begin { category, id, active_mode, active_arg_preset } => {
                if self.is_occupied(category, id) {
                    (self, Seq::empty())
                } else {
                    (
                        self.reserve(category, id),
                        self.visible(
                            seq![
                                ManagerView::<C>::announcement(
                                    category,
                                    id,
                                    active_mode,
                                    active_arg_preset,
                                ),
                            ],
                        ),
                    )
                }
            },
            Step::Spawned { category, handle } => {
                if self.table(category).reserved.contains(handle.service_id) {
                    (
                        self.enroll(category, handle),
                        self.visible(seq![ManagerView::<C>::running_report(category, handle)]),
                    )
                } else {
                    (self, Seq::empty())
                }
            },
            Step::SpawnFailed { category, id } => {
                if self.table(category).reserved.contains(id) {
                    (self.release(category, id), Seq::empty())
                } else {
                    (self, Seq::empty())
                }
            },
            Step::Stop { category, id } => {
                if self.is_running(category, id) {
                    (
                        self.evict(category, id),
                        self.visible(
                            seq![
                                ManagerView::<C>::stop_report(category, self.handle(category, id)),
                            ],
                        ),
                    )
                } else {
                    (self, Seq::empty())
                }
            },
            Step::Tick { category, id, outcome } => (
                self.after_tick(category, id, outcome),
                self.tick_events(category, id, outcome),
            ),
            Step::Line { category, id, stream, text } => (
                self,
                self.visible(seq![EventView::Log { category, id, stream, text }]),
            ),
            Step::Signal => (self.signalled(), Seq::empty()),
            Step::Drain => (self.drained(), Seq::empty()),
        }
    }

    /// The state after `steps`, one after the other, and all the events that
    /// they report, in order.
    pub open spec fn run(self, steps: Seq<Step<C>>) -> (Self, Seq<EventView>)
        decreases steps.len(),
    {
        if steps.len() == 0 {
            (self, Seq::empty())
        } else {
            let (next, first) = self.apply(steps[0]);
            let (last, rest) = next.run(steps.drop_first());
            (last, first + rest)
        }
    }

    /// Whether `step` makes the entity running: it is the second step of a
    /// launch of the entity that was begun.
    pub open spec fn launches(self, step: Step<C>, category: ProcessCategory, id: Seq<char>) -> bool {
        match step {
            Step::Spawned { category: c, handle } => c == category && handle.service_id == id
                && self.table(category).reserved.contains(id),
            _ => false,
        }
    }

    /// How many launches of the entity go through in the course of `steps`.
    pub open spec fn launch_count(
        self,
        steps: Seq<Step<C>>,
        category: ProcessCategory,
        id: Seq<char>,
    ) -> nat
        decreases steps.len(),
    {
        if steps.len() == 0 {
            0
        } else {
            let here: nat = if self.launches(steps[0], category, id) {
                1
            } else {
                0
            };
            here + self.apply(steps[0]).0.launch_count(steps.drop_first(), category, id)
        }
    }
}

/// How many of `events` report a terminal state of the entity.
pub open spec fn terminal_count(events: Seq<EventView>, category: ProcessCategory, id: Seq<char>) -> nat
    decreases events.len(),
{
    if events.len() == 0 {
        0
    } else {
        let here: nat = if events.last().concerns(category, id) && events.last().is_terminal_status() {
            1
        } else {
            0
        };
        terminal_count(events.drop_last(), category, id) + here
    }
}

/// How many of `events` report an exit of the entity.
pub open spec fn exit_count(events: Seq<EventView>, category: ProcessCategory, id: Seq<char>) -> nat
    decreases events.len(),
{
    if events.len() == 0 {
        0
    } else {
        let here: nat = if events.last().concerns(category, id) && events.last() is Exit {
            1
        } else {
            0
        };
        exit_count(events.drop_last(), category, id) + here
    }
}

/// 1 if the entity is running, 0 if not.
pub open spec fn alive<C>(state: ManagerView<C>, category: ProcessCategory, id: Seq<char>) -> nat {
    if state.is_running(category, id) {
        1
    } else {
        0
    }
}

proof fn lemma_terminal_count_add(
    a: Seq<EventView>,
    b: Seq<EventView>,
    category: ProcessCategory,
    id: Seq<char>,
)
    ensures
        terminal_count(a + b, category, id) == terminal_count(a, category, id) + terminal_count(
            b,
            category,
            id,
        ),
    decreases b.len(),
{
    if b.len() == 0 {
        assert(a + b =~= a);
    } else {
        assert((a + b).drop_last() =~= a + b.drop_last());
        lemma_terminal_count_add(a, b.drop_last(), category, id);
    }
}

proof fn lemma_exit_count_add(
    a: Seq<EventView>,
    b: Seq<EventView>,
    category: ProcessCategory,
    id: Seq<char>,
)
    ensures
        exit_count(a + b, category, id) == exit_count(a, category, id) + exit_count(b, category, id),
    decreases b.len(),
{
    if b.len() == 0 {
        assert(a + b =~= a);
    } else {
        assert((a + b).drop_last() =~= a + b.drop_last());
        lemma_exit_count_add(a, b.drop_last(), category, id);
    }
}

proof fn lemma_count_one(e: EventView, category: ProcessCategory, id: Seq<char>)
    ensures
        terminal_count(seq![e], category, id) == (if e.concerns(category, id)
            && e.is_terminal_status() {
            1nat
        } else {
            0nat
        }),
        exit_count(seq![e], category, id) == (if e.concerns(category, id) && e is Exit {
            1nat
        } else {
            0nat
        }),
        terminal_count(Seq::<EventView>::empty(), category, id) == 0,
        exit_count(Seq::<EventView>::empty(), category, id) == 0,
{
    reveal_with_fuel(terminal_count, 2);
    reveal_with_fuel(exit_count, 2);
    assert(seq![e].drop_last() =~= Seq::<EventView>::empty());
    assert(seq![e].last() == e);
}

proof fn lemma_count_two(a: EventView, b: EventView, category: ProcessCategory, id: Seq<char>)
    ensures
        terminal_count(seq![a, b], category, id) == terminal_count(seq![a], category, id)
            + terminal_count(seq![b], category, id),
        exit_count(seq![a, b], category, id) == exit_count(seq![a], category, id) + exit_count(
            seq![b],
            category,
            id,
        ),
{
    assert(seq![a, b] =~= seq![a] + seq![b]);
    lemma_terminal_count_add(seq![a], seq![b], category, id);
    lemma_exit_count_add(seq![a], seq![b], category, id);
}

/// Every step keeps the state consistent.
pub proof fn lemma_apply_consistent<C>(state: ManagerView<C>, step: Step<C>)
    requires
        state.consistent(),
    ensures
        state.apply(step).0.consistent(),
{
    let next = state.apply(step).0;
    match step {
        Step::Begin { category, id, .. } => {
            assert(next.table(category).consistent());
        },
        Step::Spawned { category, handle } => {
            assert(next.table(category).consistent());
        },
        Step::SpawnFailed { category, id } => {
            assert(next.table(category).consistent());
        },
        Step::Stop { category, id } => {
            assert(next.table(category).consistent());
        },
        Step::Tick { category, id, outcome } => {
            assert(next.table(category).consistent());
        },
        _ => {},
    }
}

/// One step, seen from one entity: what it reports of terminal states of
/// the entity, and whether the entity runs afterwards, add up.
proof fn lemma_step_balance<C>(
    state: ManagerView<C>,
    step: Step<C>,
    category: ProcessCategory,
    id: Seq<char>,
)
    requires
        state.consistent(),
        !state.shutdown,
        !step.is_shutdown(),
    ensures
        ({
            let (next, events) = state.apply(step);
            let launched: nat = if state.launches(step, category, id) {
                1
            } else {
                0
            };
            &&& !next.shutdown
            &&& terminal_count(events, category, id) + alive(next, category, id) == alive(
                state,
                category,
                id,
            ) + launched
            &&& exit_count(events, category, id) <= terminal_count(events, category, id)
        }),
{
    let (next, events) = state.apply(step);
    match step {
        Step::Begin { category: c, id: i, active_mode, active_arg_preset } => {
            lemma_count_one(
                ManagerView::<C>::announcement(c, i, active_mode, active_arg_preset),
                category,
                id,
            );
        },
        Step::Spawned { category: c, handle } => {
            lemma_count_one(ManagerView::<C>::running_report(c, handle), category, id);
            if state.table(c).reserved.contains(handle.service_id) {
                assert(!state.table(c).running.contains_key(handle.service_id));
            }
        },
        Step::SpawnFailed { category: c, id: i } => {
            lemma_count_one(EventView::Log { category, id, stream: LogStream::Stdout, text: id }, category, id);
        },
        Step::Stop { category: c, id: i } => {
            if state.is_running(c, i) {
                let handle = state.handle(c, i);
                assert(state.table(c).running.contains_key(i));
                assert(handle.service_id == i);
                lemma_count_one(ManagerView::<C>::stop_report(c, handle), category, id);
            } else {
                lemma_count_one(EventView::Log { category, id, stream: LogStream::Stdout, text: id }, category, id);
            }
        },
        Step::Tick { category: c, id: i, outcome } => {
            if state.tick_removes(c, i, outcome) {
                let handle = state.handle(c, i);
                assert(state.table(c).running.contains_key(i));
                assert(handle.service_id == i);
                let report = ManagerView::<C>::exit_report(c, handle, outcome.exit_code());
                lemma_count_two(report[0], report[1], category, id);
                lemma_count_one(report[0], category, id);
                lemma_count_one(report[1], category, id);
                assert(report =~= seq![report[0], report[1]]);
            } else {
                lemma_count_one(EventView::Log { category, id, stream: LogStream::Stdout, text: id }, category, id);
            }
        },
        Step::Line { category: c, id: i, stream, text } => {
            lemma_count_one(EventView::Log { category: c, id: i, stream, text }, category, id);
        },
        _ => {},
    }
}

/// Lifecycle exactly-once. In a run without shutdown, for every entity: the
/// terminal status events reported of it, plus one if it is running at the
/// end, are as many as its launches that went through, plus one if it was
/// running at the start. So every launch that went through is ended by
/// exactly one terminal status, never none once the entity is off the
/// registry and never two, however stops and exits interleave. An exit
/// event is reported at most once per terminal status.
pub proof fn law_lifecycle_exactly_once<C>(
    state: ManagerView<C>,
    steps: Seq<Step<C>>,
    category: ProcessCategory,
    id: Seq<char>,
)
    requires
        state.consistent(),
        !state.shutdown,
        forall|k: int| 0 <= k < steps.len() ==> !(#[trigger] steps[k]).is_shutdown(),
    ensures
        ({
            let (last, events) = state.run(steps);
            &&& last.consistent()
            &&& !last.shutdown
            &&& terminal_count(events, category, id) + alive(last, category, id) == alive(
                state,
                category,
                id,
            ) + state.launch_count(steps, category, id)
            &&& exit_count(events, category, id) <= terminal_count(events, category, id)
        }),
    decreases steps.len(),
{
    if steps.len() == 0 {
    } else {
        let (next, first) = state.apply(steps[0]);
        lemma_apply_consistent(state, steps[0]);
        lemma_step_balance(state, steps[0], category, id);
        let rest_steps = steps.drop_first();
        assert forall|k: int| 0 <= k < rest_steps.len() implies !(
        #[trigger] rest_steps[k]).is_shutdown() by {
            assert(rest_steps[k] == steps[k + 1]);
        }
        law_lifecycle_exactly_once(next, rest_steps, category, id);
        let (last, rest) = next.run(rest_steps);
        lemma_terminal_count_add(first, rest, category, id);
        lemma_exit_count_add(first, rest, category, id);
    }
}

/// Shutdown suppression. Once the shutdown signal is set, no run reports
/// any event, of any kind, and the signal stays set.
pub proof fn law_shutdown_suppression<C>(state: ManagerView<C>, steps: Seq<Step<C>>)
    requires
        state.shutdown,
    ensures
        state.run(steps).1 == Seq::<EventView>::empty(),
        state.run(steps).0.shutdown,
    decreases steps.len(),
{
    if steps.len() > 0 {
        let (next, first) = state.apply(steps[0]);
        assert(next.shutdown);
        assert(first =~= Seq::empty());
        law_shutdown_suppression(next, steps.drop_first());
        assert(first + next.run(steps.drop_first()).1 =~= Seq::empty());
    }
}

/// The shutdown signal is written once: no step clears it.
pub proof fn law_shutdown_signal_stays<C>(state: ManagerView<C>, step: Step<C>)
    requires
        state.shutdown,
    ensures
        state.apply(step).0.shutdown,
        state.apply(step).1 == Seq::<EventView>::empty(),
{
    assert(state.apply(step).1 =~= Seq::empty());
}

/// Mutual exclusion. After the first step of a launch, whether it went
/// through or was refused, the slot of the entity is occupied, and it stays
/// so when the launch is completed with a created process. While it is
/// occupied, every first step of a launch of the same entity is refused with
/// `AlreadyRunning`, changes nothing and reports nothing, so no second
/// process is created. Slots of the same id in other categories are not
/// touched.
pub proof fn law_mutual_exclusion<C>(
    state: ManagerView<C>,
    category: ProcessCategory,
    id: Seq<char>,
    active_mode: Option<Seq<char>>,
    active_arg_preset: Option<Seq<char>>,
    handle: ProcessInfoView<C>,
    other: ProcessCategory,
)
    requires
        handle.service_id == id,
    ensures
        ({
            let begin = Step::<C>::Begin { category, id, active_mode, active_arg_preset };
            let begun = state.apply(begin).0;
            let spawned = begun.apply(Step::Spawned { category, handle }).0;
            &&& begun.is_occupied(category, id)
            &&& begun.begin_verdict(category, id) == Err::<(), ProcessErrorView>(
                ProcessErrorView::AlreadyRunning(id),
            )
            &&& begun.apply(begin) == (begun, Seq::<EventView>::empty())
            &&& spawned.is_occupied(category, id)
            &&& spawned.begin_verdict(category, id) == Err::<(), ProcessErrorView>(
                ProcessErrorView::AlreadyRunning(id),
            )
            &&& spawned.apply(begin) == (spawned, Seq::<EventView>::empty())
            &&& other != category ==> begun.table(other) == state.table(other) && spawned.table(other)
                == state.table(other)
        }),
{
}

/// Idempotent stop. A stop of a running entity goes through and takes it
/// off the registry; a second stop right after is refused with `NotRunning`,
/// changes nothing and reports nothing.
pub proof fn law_idempotent_stop<C>(state: ManagerView<C>, category: ProcessCategory, id: Seq<char>)
    requires
        state.is_running(category, id),
    ensures
        ({
            let stop = Step::<C>::Stop { category, id };
            let stopped = state.apply(stop).0;
            &&& state.stop_verdict(category, id) is Ok
            &&& !stopped.is_running(category, id)
            &&& stopped.stop_verdict(category, id) == Err::<(), ProcessErrorView>(
                ProcessErrorView::NotRunning(id),
            )
            &&& stopped.apply(stop) == (stopped, Seq::<EventView>::empty())
        }),
{
}

/// A launch that fails to create its process leaves no trace: the entity
/// is not running, its slot is free again, and it can be launched at once.
pub proof fn law_failed_launch_leaves_no_trace<C>(
    state: ManagerView<C>,
    category: ProcessCategory,
    id: Seq<char>,
    active_mode: Option<Seq<char>>,
    active_arg_preset: Option<Seq<char>>,
)
    requires
        state.consistent(),
        !state.is_occupied(category, id),
    ensures
        ({
            let begun = state.apply(
                Step::<C>::Begin { category, id, active_mode, active_arg_preset },
            ).0;
            let failed = begun.apply(Step::<C>::SpawnFailed { category, id }).0;
            &&& !failed.is_running(category, id)
            &&& !failed.is_occupied(category, id)
            &&& failed.begin_verdict(category, id) is Ok
            &&& failed.table(category).running == state.table(category).running
        }),
{
}

/// Exit-code mapping. Of a process that ended by itself, the exit event
/// reports success exactly for the exit code zero, a script is `Completed`
/// exactly then and `Failed` otherwise, and a service is `Stopped`. A stop
/// on request reports one status, which is terminal and never `Completed`,
/// and no exit event, whatever the process's exit code turns out to be.
pub proof fn law_exit_code_mapping<C>(
    state: ManagerView<C>,
    category: ProcessCategory,
    id: Seq<char>,
    outcome: WaitOutcome,
)
    requires
        state.consistent(),
        state.is_running(category, id),
        !state.shutdown,
        outcome.is_final(),
    ensures
        ({
            let exited = state.apply(Step::<C>::Tick { category, id, outcome }).1;
            let stopped = state.apply(Step::<C>::Stop { category, id }).1;
            let code = outcome.exit_code();
            &&& exited.len() == 2
            &&& exited[0] is Status
            &&& exited[0].concerns(category, id)
            &&& exited[0].is_terminal_status()
            &&& exited[0]->Status_state == exited_state(category, code)
            &&& exited[1] == (EventView::Exit {
                category,
                id,
                exit_code: code,
                success: code == Some(0i32),
            })
            &&& category != ProcessCategory::Service ==> (exited[0]->Status_state
                == Lifecycle::Script(ScriptStatus::Completed) <==> code == Some(0i32))
            &&& category != ProcessCategory::Service ==> (exited[0]->Status_state
                == Lifecycle::Script(ScriptStatus::Failed) <==> code != Some(0i32))
            &&& category == ProcessCategory::Service ==> exited[0]->Status_state
                == Lifecycle::Service(ServiceStatus::Stopped)
            &&& stopped.len() == 1
            &&& stopped[0] is Status
            &&& stopped[0].concerns(category, id)
            &&& stopped[0].is_terminal_status()
            &&& stopped[0]->Status_state != Lifecycle::Script(ScriptStatus::Completed)
            &&& exit_count(stopped, category, id) == 0
        }),
{
    let handle = state.handle(category, id);
    assert(state.table(category).running.contains_key(id));
    assert(handle.service_id == id);
    let stopped = state.apply(Step::<C>::Stop { category, id }).1;
    lemma_count_one(stopped[0], category, id);
    assert(stopped =~= seq![stopped[0]]);
}

} // verus!
