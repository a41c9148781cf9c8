//! Grouped execution: an ordered list of global scripts, launched one after
//! the other or all at once.
//!
//! A `GroupRun` is stepped by its caller. `next` launches as far as the
//! engine alone can decide and then asks for one of three things: to create
//! the process of a launch that it has begun, to pause while the script
//! launched before is still registered, or nothing more. After creating a
//! process the caller completes the launch with the engine and hands the
//! result to `record`.

use crate::error::{ProcessError, ProcessErrorView};
use crate::events::event_views;
use crate::models::Platform;
use crate::process_manager::{LaunchPlan, ManagerView, ProcessManager};
use crate::registry::ProcessCategory;
use crate::spawn::{forced_env_texts, pair_texts};
use crate::watch::WATCH_INTERVAL_MS;
use vstd::prelude::*;

verus! {

/// One script of a group: its id, working directory, program, arguments and
/// environment overrides.
pub type GroupScript = (String, String, String, Vec<String>, Option<Vec<(String, String)>>);

/// The result of one launch of a group: the script's id and its process id,
/// or why it was not launched.
pub type GroupResult = (String, Result<u32, ProcessError>);

/// A `GroupResult` as a mathematical value.
pub type GroupResultView = (Seq<char>, Result<u32, ProcessErrorView>);

/// The ids of a list of scripts.
pub open spec fn script_ids(scripts: Seq<GroupScript>) -> Seq<Seq<char>> {
    scripts.map_values(|s: GroupScript| s.0@)
}

/// A result as a mathematical value.
pub open spec fn result_view(result: GroupResult) -> GroupResultView {
    (
        result.0@,
        match result.1 {
            Ok(pid) => Ok(pid),
            Err(e) => Err(e@),
        },
    )
}

/// The results of a list, as mathematical values.
pub open spec fn result_views(results: Seq<GroupResult>) -> Seq<GroupResultView> {
    results.map_values(|r: GroupResult| result_view(r))
}

/// The ids of a list of results.
pub open spec fn result_ids(results: Seq<GroupResultView>) -> Seq<Seq<char>> {
    results.map_values(|r: GroupResultView| r.0)
}

/// How many scripts at the head of `ids` cannot be launched in `state`
/// because their slot is occupied.
pub open spec fn leading_occupied<C>(ids: Seq<Seq<char>>, state: ManagerView<C>) -> nat
    decreases ids.len(),
{
    if ids.len() > 0 && state.is_occupied(ProcessCategory::GlobalScript, ids[0]) {
        1 + leading_occupied(ids.drop_first(), state)
    } else {
        0
    }
}

/// The failure that is recorded for a script whose slot is occupied.
pub open spec fn refusal(id: Seq<char>) -> GroupResultView {
    (id, Err(ProcessErrorView::AlreadyRunning(id)))
}

/// The failures that are recorded for the first `count` of `ids`.
pub open spec fn refusals(ids: Seq<Seq<char>>, count: nat) -> Seq<GroupResultView> {
    Seq::new(count, |i: int| refusal(ids[i]))
}

/// A group run as a mathematical value.
pub struct GroupRunView {
    /// The scripts that were not attempted yet, in order.
    pub pending: Seq<GroupScript>,
    /// The results so far, in the order of the attempts.
    pub results: Seq<GroupResultView>,
    pub sequential: bool,
    pub stop_on_failure: bool,
    /// The script whose process the caller was asked to create.
    pub launching: Option<Seq<char>>,
    /// The script whose end is awaited before the next one is launched.
    pub awaiting: Option<Seq<char>>,
    /// Whether the run has stopped early on a failure.
    pub halted: bool,
}

impl GroupRunView {
    /// Whether a failure ends the run.
    pub open spec fn stops_on_failure(self) -> bool {
        self.sequential && self.stop_on_failure
    }

    /// The ids of all scripts of the group, in order: those with a result,
    /// the one being launched, and those still pending.
    pub open spec fn all_ids(self) -> Seq<Seq<char>> {
        result_ids(self.results) + (match self.launching {
            Some(id) => seq![id],
            None => Seq::empty(),
        }) + script_ids(self.pending)
    }

    /// What holds of every run: it halts only on a failure that ends it; all
    /// results before the last are successes where a failure ends the run,
    /// and the last is one too unless the run has halted; a script is
    /// awaited only in a sequential run, only while nothing is being
    /// launched, and it is the one that was launched last, with success; a
    /// halted run launches nothing.
    pub open spec fn consistent(self) -> bool {
        &&& self.halted ==> self.stops_on_failure() && self.results.len() > 0
            && self.results.last().1 is Err && self.launching is None
        &&& self.stops_on_failure() ==> forall|i: int|
            0 <= i < self.results.len() - 1 ==> (#[trigger] self.results[i]).1 is Ok
        &&& self.stops_on_failure() && !self.halted ==> forall|i: int|
            0 <= i < self.results.len() ==> (#[trigger] self.results[i]).1 is Ok
        &&& self.awaiting is Some ==> self.sequential && self.launching is None
            && self.results.len() > 0 && self.results.last().1 is Ok && self.results.last().0
            == self.awaiting->Some_0
    }

    /// Whether the run is over: nothing is being launched or awaited, and it
    /// has halted or has no script left.
    pub open spec fn finished(self) -> bool {
        self.launching is None && self.awaiting is None && (self.halted || self.pending.len()
            == 0)
    }

    /// The run of `scripts` that has not begun.
    pub open spec fn start(scripts: Seq<GroupScript>, sequential: bool, stop_on_failure: bool) -> Self {
        GroupRunView {
            pending: scripts,
            results: Seq::empty(),
            sequential,
            stop_on_failure,
            launching: None,
            awaiting: None,
            halted: false,
        }
    }

    /// How many pending scripts a round refuses in `state` before it asks
    /// for something: those at the head whose slot is occupied, and only the
    /// first of them where a failure ends the run.
    pub open spec fn refused<C>(self, state: ManagerView<C>) -> nat {
        let occupied = leading_occupied(script_ids(self.pending), state);
        if self.stops_on_failure() && occupied > 0 {
            1
        } else {
            occupied
        }
    }

    /// The run after a round in `state` that does not wait.
    pub open spec fn after_round<C>(self, state: ManagerView<C>) -> Self {
        let refused = self.refused(state);
        let results = self.results + refusals(script_ids(self.pending), refused);
        if self.halted {
            GroupRunView { awaiting: None, ..self }
        } else if self.stops_on_failure() && refused > 0 {
            GroupRunView {
                pending: self.pending.skip(refused as int),
                results,
                awaiting: None,
                halted: true,
                ..self
            }
        } else if refused == self.pending.len() {
            GroupRunView { pending: Seq::empty(), results, awaiting: None, ..self }
        } else {
            GroupRunView {
                pending: self.pending.skip(refused as int + 1),
                results,
                awaiting: None,
                launching: Some(self.pending[refused as int].0@),
                ..self
            }
        }
    }

    /// The run after the launch that was asked for came to `outcome`.
    pub open spec fn after_record(self, outcome: Result<u32, ProcessErrorView>) -> Self {
        let id = self.launching->Some_0;
        GroupRunView {
            results: self.results.push((id, outcome)),
            launching: None,
            awaiting: if self.sequential && outcome is Ok {
                Some(id)
            } else {
                None
            },
            halted: self.stops_on_failure() && outcome is Err,
            ..self
        }
    }
}

/// What a group run asks of its caller.
#[derive(Debug)]
pub enum GroupStep {
    /// Report the plan's events, create its process, complete the launch
    /// with the engine, and hand the result to `record`.
    Spawn(LaunchPlan),
    /// Pause for so many milliseconds, then ask again.
    Wait(u64),
    /// The run is over; `into_results` has its results.
    Finished,
}

/// A group of global scripts being run.
#[derive(Debug)]
pub struct GroupRun {
    pending: Vec<GroupScript>,
    results: Vec<GroupResult>,
    sequential: bool,
    stop_on_failure: bool,
    launching: Option<String>,
    awaiting: Option<String>,
    halted: bool,
}

impl View for GroupRun {
    type V = GroupRunView;

    closed spec fn view(&self) -> GroupRunView {
        GroupRunView {
            pending: self.pending@,
            results: result_views(self.results@),
            sequential: self.sequential,
            stop_on_failure: self.stop_on_failure,
            launching: crate::registry::opt_text(self.launching),
            awaiting: crate::registry::opt_text(self.awaiting),
            halted: self.halted,
        }
    }
}

proof fn lemma_leading_occupied<C>(ids: Seq<Seq<char>>, state: ManagerView<C>, count: nat)
    requires
        count <= ids.len(),
        forall|k: int| 0 <= k < count ==> state.is_occupied(ProcessCategory::GlobalScript, ids[k]),
        count < ids.len() ==> !state.is_occupied(ProcessCategory::GlobalScript, ids[count as int]),
    ensures
        leading_occupied(ids, state) == count,
    decreases ids.len(),
{
    if count > 0 {
        let rest = ids.drop_first();
        assert forall|k: int| 0 <= k < count - 1 implies state.is_occupied(
            ProcessCategory::GlobalScript,
            rest[k],
        ) by {
            assert(rest[k] == ids[k + 1]);
        }
        if count < ids.len() {
            assert(rest[count - 1] == ids[count as int]);
        }
        lemma_leading_occupied(rest, state, (count - 1) as nat);
    }
}

/// Runs a group of global scripts: the run of `scripts`, not yet begun.
///
/// In a sequential run each script is launched when the one before is no
/// longer registered, and with `stop_on_failure` the first launch that fails
/// ends the run: the scripts after it are neither launched nor reported. In
/// a parallel run all are launched without waiting, and `stop_on_failure`
/// has no effect.
pub fn run_script_group(scripts: Vec<GroupScript>, sequential: bool, stop_on_failure: bool) -> (run:
    GroupRun)
    ensures
        run@ == GroupRunView::start(scripts@, sequential, stop_on_failure),
        run@.consistent(),
{
    let run = GroupRun {
        pending: scripts,
        results: Vec::new(),
        sequential,
        stop_on_failure,
        launching: None,
        awaiting: None,
        halted: false,
    };
    assert(run@.results =~= Seq::empty());
    run
}

impl GroupRun {
    /// Whether the caller owes the run the result of a launch.
    pub fn is_launching(&self) -> (launching: bool)
        ensures
            launching == (self@.launching is Some),
    {
        self.launching.is_some()
    }

    /// Whether the run is over.
    pub fn is_finished(&self) -> (finished: bool)
        ensures
            finished == self@.finished(),
    {
        self.launching.is_none() && self.awaiting.is_none() && (self.halted || self.pending.len()
            == 0)
    }

    /// One round of the run.
    ///
    /// While the script launched before is still registered, the round asks
    /// for a pause and changes nothing. Otherwise it takes the pending
    /// scripts in order: one whose slot is occupied gets the failure
    /// `AlreadyRunning` as its result, which ends the run where a failure
    /// does so; for the first one whose slot is free the launch is begun
    /// with the engine and the caller is asked to create its process. With
    /// no script left, or after a failure that ends the run, the round says
    /// `Finished`.
    pub fn next<C>(&mut self, manager: &mut ProcessManager<C>) -> (step: GroupStep)
        requires
            old(self)@.consistent(),
            old(self)@.launching is None,
            old(manager).wf(),
        ensures
            final(manager).wf(),
            final(self)@.consistent(),
            final(self)@.all_ids() == old(self)@.all_ids(),
            old(self)@.awaiting is Some && old(manager)@.is_running(
                ProcessCategory::GlobalScript,
                old(self)@.awaiting->Some_0,
            ) ==> {
                &&& step == GroupStep::Wait(WATCH_INTERVAL_MS)
                &&& final(self)@ == old(self)@
                &&& final(manager)@ == old(manager)@
            },
            !(old(self)@.awaiting is Some && old(manager)@.is_running(
                ProcessCategory::GlobalScript,
                old(self)@.awaiting->Some_0,
            )) ==> {
                &&& final(self)@ == old(self)@.after_round(old(manager)@)
                &&& match step {
                    GroupStep::Wait(_) => false,
                    GroupStep::Finished => {
                        &&& final(self)@.finished()
                        &&& final(manager)@ == old(manager)@
                    },
                    GroupStep::Spawn(plan) => {
                        let script = old(self)@.pending[old(self)@.refused(old(manager)@) as int];
                        &&& final(self)@.launching == Some(script.0@)
                        &&& final(manager)@ == old(manager)@.reserve(
                            ProcessCategory::GlobalScript,
                            script.0@,
                        )
                        &&& plan.ticket.category == ProcessCategory::GlobalScript
                        &&& plan.ticket.id@ == script.0@
                        &&& plan.ticket.active_mode is None
                        &&& plan.ticket.active_arg_preset is None
                        &&& plan.request.working_dir == script.1
                        &&& plan.request.program == script.2
                        &&& plan.request.args == script.3
                        &&& plan.request.env_vars == script.4
                        &&& pair_texts(plan.request.forced_env@) == forced_env_texts(
                            old(manager)@.platform,
                        )
                        &&& plan.request.hide_window == (old(manager)@.platform
                            == Platform::Windows)
                        &&& event_views(plan.events@) == old(manager)@.visible(
                            seq![
                                ManagerView::<C>::announcement(
                                    ProcessCategory::GlobalScript,
                                    script.0@,
                                    None,
                                    None,
                                ),
                            ],
                        )
                    },
                }
            },
    {
        let waits = match &self.awaiting {
            Some(id) => manager.is_global_script_running(id.as_str()),
            None => false,
        };
        if waits {
            return GroupStep::Wait(WATCH_INTERVAL_MS);
        }
        self.awaiting = None;
        let ghost before = old(self)@;
        let ghost state = manager@;
        let ghost ids = script_ids(before.pending);
        if self.halted {
            assert(self@.all_ids() =~= before.all_ids());
            return GroupStep::Finished;
        }
        let ghost mut done: nat = 0;
        assert(self@.results =~= before.results + refusals(ids, 0));
        assert(self.pending@ =~= before.pending.skip(0));
        while self.pending.len() > 0
            invariant
                manager.wf(),
                manager@ == state,
                before == old(self)@,
                state == old(manager)@,
                !(before.awaiting is Some && state.is_running(
                    ProcessCategory::GlobalScript,
                    before.awaiting->Some_0,
                )),
                before.consistent(),
                before.launching is None,
                !before.halted,
                ids == script_ids(before.pending),
                done <= before.pending.len(),
                self.pending@ == before.pending.skip(done as int),
                self@.results == before.results + refusals(ids, done),
                self.sequential == before.sequential,
                self.stop_on_failure == before.stop_on_failure,
                self.launching is None,
                self.awaiting is None,
                !self.halted,
                forall|k: int|
                    0 <= k < done ==> state.is_occupied(ProcessCategory::GlobalScript, ids[k]),
                before.stops_on_failure() ==> done == 0,
            decreases self.pending@.len(),
        {
            let script = self.pending.remove(0);
            assert(script == before.pending[done as int]);
            assert(self.pending@ =~= before.pending.skip(done as int + 1));
            let (id, working_dir, program, args, env_vars) = script;
            let kept = id.clone();
            match manager.run_global_script(id, working_dir, program, args, env_vars) {
                Ok(plan) => {
                    self.launching = Some(kept);
                    proof {
                        lemma_leading_occupied(ids, state, done);
                        assert(before.refused(state) == done);
                        assert(self@.all_ids() =~= before.all_ids()) by {
                            lemma_all_ids_after(before, state);
                        }
                    }
                    return GroupStep::Spawn(plan);
                },
                Err(error) => {
                    let ghost shown = result_views(self.results@);
                    self.results.push((kept, Err(error)));
                    proof {
                        assert(ids[done as int] == script.0@);
                        assert(result_views(self.results@) =~= shown.push(refusal(ids[done as int])));
                        assert(shown.push(refusal(ids[done as int])) =~= before.results + refusals(
                            ids,
                            done + 1,
                        ));
                        done = done + 1;
                    }
                    if self.sequential && self.stop_on_failure {
                        self.halted = true;
                        proof {
                            lemma_leading_positive(ids, state);
                            assert(before.refused(state) == 1);
                            assert(self@ == before.after_round(state));
                            lemma_all_ids_after(before, state);
                        }
                        return GroupStep::Finished;
                    }
                },
            }
        }
        proof {
            lemma_leading_occupied(ids, state, done);
            assert(self.pending@ =~= Seq::empty());
            assert(self@ == before.after_round(state));
            lemma_all_ids_after(before, state);
        }
        GroupStep::Finished
    }

    /// Takes the result of the launch that the last round asked for: the
    /// process id, or why the launch failed. In a sequential run a success
    /// is awaited before the next launch, and with `stop_on_failure` a
    /// failure ends the run.
    pub fn record(&mut self, outcome: Result<u32, ProcessError>)
        requires
            old(self)@.consistent(),
            old(self)@.launching is Some,
        ensures
            final(self)@.consistent(),
            final(self)@.all_ids() == old(self)@.all_ids(),
            final(self)@ == old(self)@.after_record(
                match outcome {
                    Ok(pid) => Ok(pid),
                    Err(e) => Err(e@),
                },
            ),
    {
        let ghost before = self@;
        let ghost shown = result_views(self.results@);
        let id = match self.launching.take() {
            Some(id) => id,
            None => {
                proof {
                    assert(false);
                }
                vstd::pervasive::unreached()
            },
        };
        let failed = outcome.is_err();
        if self.sequential && !failed {
            self.awaiting = Some(id.clone());
        } else {
            self.awaiting = None;
        }
        if self.sequential && self.stop_on_failure && failed {
            self.halted = true;
        }
        let ghost entry = result_view((id, outcome));
        self.results.push((id, outcome));
        proof {
            assert(result_views(self.results@) =~= shown.push(entry));
            assert(result_ids(shown.push(entry)) =~= result_ids(shown).push(entry.0));
            assert(self@.all_ids() =~= before.all_ids());
        }
    }

    /// The results so far, in the order of the attempts.
    pub fn into_results(self) -> (results: Vec<GroupResult>)
        ensures
            result_views(results@) == self@.results,
    {
        self.results
    }
}

proof fn lemma_leading_positive<C>(ids: Seq<Seq<char>>, state: ManagerView<C>)
    requires
        ids.len() > 0,
        state.is_occupied(ProcessCategory::GlobalScript, ids[0]),
    ensures
        leading_occupied(ids, state) > 0,
{
}

proof fn lemma_leading_bound<C>(ids: Seq<Seq<char>>, state: ManagerView<C>)
    ensures
        leading_occupied(ids, state) <= ids.len(),
    decreases ids.len(),
{
    if ids.len() > 0 {
        lemma_leading_bound(ids.drop_first(), state);
    }
}

proof fn lemma_all_ids_after<C>(run: GroupRunView, state: ManagerView<C>)
    requires
        run.launching is None,
    ensures
        run.after_round(state).all_ids() == run.all_ids(),
{
    let ids = script_ids(run.pending);
    lemma_leading_bound(ids, state);
    let refused = run.refused(state);
    let after = run.after_round(state);
    let added = refusals(ids, refused);
    assert(result_ids(run.results + added) =~= result_ids(run.results) + ids.take(refused as int));
    if run.halted {
        assert(after.all_ids() =~= run.all_ids());
    } else if run.stops_on_failure() && refused > 0 {
        assert(script_ids(run.pending.skip(refused as int)) =~= ids.skip(refused as int));
        assert(after.all_ids() =~= run.all_ids());
    } else if refused == run.pending.len() {
        assert(after.all_ids() =~= run.all_ids());
    } else {
        assert(script_ids(run.pending.skip(refused as int + 1)) =~= ids.skip(refused as int + 1));
        assert(after.all_ids() =~= run.all_ids());
    }
}

/// Sequential group semantics. The results of a run that is over follow the
/// scripts of the group in order, one result per attempt. Where a failure
/// ends the run (a sequential run with `stop_on_failure`), every result but
/// the last is a success, and the results stop at the first failure: the
/// scripts after it were never attempted; if the first script fails, its
/// failure is the only result. In every other run all scripts were
/// attempted, whatever came of each.
pub proof fn law_group_results(run: GroupRunView)
    requires
        run.consistent(),
        run.finished(),
    ensures
        run.results.len() <= run.all_ids().len(),
        forall|i: int| 0 <= i < run.results.len() ==> (#[trigger] run.results[i]).0 == run.all_ids()[i],
        !run.stops_on_failure() ==> run.results.len() == run.all_ids().len(),
        run.stops_on_failure() ==> {
            &&& forall|i: int| 0 <= i < run.results.len() - 1 ==> (#[trigger] run.results[i]).1 is Ok
            &&& run.results.len() == run.all_ids().len() || (run.results.len() > 0
                && run.results.last().1 is Err)
            &&& run.results.len() > 0 && run.results[0].1 is Err ==> run.results.len() == 1
        },
{
    let shown = result_ids(run.results);
    assert(run.all_ids() =~= shown + script_ids(run.pending));
    assert forall|i: int| 0 <= i < run.results.len() implies (#[trigger] run.results[i]).0
        == run.all_ids()[i] by {
        assert(shown[i] == run.results[i].0);
    }
}

} // verus!
