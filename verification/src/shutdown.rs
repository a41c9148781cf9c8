//! Shutdown: how the engine brings everything down before the host exits.
//!
//! Shutdown is a fixed sequence of rounds. The caller starts it with
//! `stop_all`, then calls `shutdown_step` under the engine's lock, performs
//! what each round asks for outside the lock, and goes on until a round says
//! `Done`. The rounds are: the shutdown signal is set; a short pause lets
//! exit watches notice it; everything registered is recorded and gets a
//! robust kill; every handle leaves the registry and its child is killed and
//! waited for directly; and the recorded processes get a second robust kill,
//! as a net for those that were slow to go. Failures of a kill are logged by
//! the caller and never passed on. Starting shutdown again is harmless.

use crate::events::EventView;
use crate::lifecycle::Step;
use crate::process_manager::{ManagerView, ProcessManager};
use crate::registry::{distinct_ids, entries_map, ProcessCategory, ProcessInfo};
use vstd::prelude::*;

verus! {

/// The pause that lets exit watches observe the shutdown signal, in
/// milliseconds.
pub const SHUTDOWN_YIELD_MS: u64 = 50;

/// One process to kill during shutdown.
#[derive(Debug, Clone)]
pub struct KillTarget {
    pub category: ProcessCategory,
    pub id: String,
    pub pid: u32,
}

/// A `KillTarget` as a mathematical value.
pub struct KillTargetView {
    pub category: ProcessCategory,
    pub id: Seq<char>,
    pub pid: u32,
}

impl View for KillTarget {
    type V = KillTargetView;

    open spec fn view(&self) -> KillTargetView {
        KillTargetView { category: self.category, id: self.id@, pid: self.pid }
    }
}

/// The targets of a list, as mathematical values.
pub open spec fn target_views(targets: Seq<KillTarget>) -> Seq<KillTargetView> {
    targets.map_values(|t: KillTarget| t@)
}

/// The turn of a category in a shutdown: services come first, then project
/// scripts, then global scripts.
pub open spec fn category_turn(category: ProcessCategory) -> int {
    match category {
        ProcessCategory::Service => 0,
        ProcessCategory::ProjectScript => 1,
        ProcessCategory::GlobalScript => 2,
    }
}

/// Whether `targets` stand category by category, in the order of their
/// turns.
pub open spec fn by_category(targets: Seq<KillTargetView>) -> bool {
    forall|i: int, j: int|
        0 <= i <= j < targets.len() ==> category_turn((#[trigger] targets[i]).category)
            <= category_turn((#[trigger] targets[j]).category)
}

/// Whether `targets` records exactly what runs in `state`: every target is
/// a running entity with its process id, no entity is recorded twice, and
/// every running entity is recorded.
pub open spec fn records<C>(targets: Seq<KillTargetView>, state: ManagerView<C>) -> bool {
    &&& forall|i: int|
        0 <= i < targets.len() ==> state.is_running(
            (#[trigger] targets[i]).category,
            targets[i].id,
        ) && state.handle(targets[i].category, targets[i].id).pid == targets[i].pid
    &&& forall|i: int, j: int|
        0 <= i < targets.len() && 0 <= j < targets.len() && i != j ==> !((
        #[trigger] targets[i]).category == (#[trigger] targets[j]).category && targets[i].id
            == targets[j].id)
    &&& forall|category: ProcessCategory, id: Seq<char>|
        state.is_running(category, id) ==> exists|i: int|
            0 <= i < targets.len() && (#[trigger] targets[i]).category == category
                && targets[i].id == id
}

/// The handles that shutdown took off the registry, by category.
#[derive(Debug)]
pub struct DrainedHandles<C> {
    pub services: Vec<ProcessInfo<C>>,
    pub scripts: Vec<ProcessInfo<C>>,
    pub global_scripts: Vec<ProcessInfo<C>>,
}

/// Where a shutdown stands.
#[derive(Clone, Copy, Debug, PartialEq, Eq, Structural)]
pub enum ShutdownStage {
    /// The signal is set; the pause is next.
    Signalled,
    /// The pause was asked for; recording and the first kills are next.
    Yielded,
    /// The first kills were asked for; draining is next.
    Swept,
    /// The handles were handed out; the second kills are next.
    Drained,
    /// The second kills were asked for; nothing is left.
    Rechecked,
}

/// What a round of shutdown asks of the caller.
#[derive(Debug)]
pub enum ShutdownStep<C> {
    /// Pause for so many milliseconds.
    Yield(u64),
    /// Apply a robust kill to each target, in order. Log failures.
    RobustKill(Vec<KillTarget>),
    /// Kill and wait for the child of each handle, ignoring failures.
    DirectKill(DrainedHandles<C>),
    /// Apply a robust kill to each target once more, ignoring failures.
    Recheck(Vec<KillTarget>),
    /// Shutdown is over.
    Done,
}

/// A shutdown in progress.
#[derive(Debug)]
pub struct Shutdown {
    stage: ShutdownStage,
    targets: Vec<KillTarget>,
}

/// A `Shutdown` as a mathematical value.
pub struct ShutdownView {
    pub stage: ShutdownStage,
    /// What was recorded for killing; empty until the recording round.
    pub targets: Seq<KillTargetView>,
}

impl View for Shutdown {
    type V = ShutdownView;

    closed spec fn view(&self) -> ShutdownView {
        ShutdownView { stage: self.stage, targets: target_views(self.targets@) }
    }
}

impl ShutdownStage {
    /// The stage after this one.
    pub open spec fn next(self) -> ShutdownStage {
        match self {
            ShutdownStage::Signalled => ShutdownStage::Yielded,
            ShutdownStage::Yielded => ShutdownStage::Swept,
            ShutdownStage::Swept => ShutdownStage::Drained,
            ShutdownStage::Drained => ShutdownStage::Rechecked,
            ShutdownStage::Rechecked => ShutdownStage::Rechecked,
        }
    }
}

impl Shutdown {
    /// Where the shutdown stands.
    pub fn stage(&self) -> (stage: ShutdownStage)
        ensures
            stage == self@.stage,
    {
        self.stage
    }
}

fn clone_targets(targets: &Vec<KillTarget>) -> (copy: Vec<KillTarget>)
    ensures
        target_views(copy@) == target_views(targets@),
{
    let mut copy: Vec<KillTarget> = Vec::new();
    let mut i: usize = 0;
    while i < targets.len()
        invariant
            i <= targets@.len(),
            copy@.len() == i,
            forall|k: int| 0 <= k < i ==> #[trigger] copy@[k]@ == targets@[k]@,
        decreases targets@.len() - i,
    {
        copy.push(
            KillTarget {
                category: targets[i].category,
                id: targets[i].id.clone(),
                pid: targets[i].pid,
            },
        );
        i += 1;
    }
    assert(target_views(copy@) =~= target_views(targets@));
    copy
}

fn add_targets(
    targets: &mut Vec<KillTarget>,
    category: ProcessCategory,
    found: Vec<(String, u32)>,
)
    ensures
        final(targets)@.len() == old(targets)@.len() + found@.len(),
        forall|k: int| 0 <= k < old(targets)@.len() ==> final(targets)@[k] == old(targets)@[k],
        forall|k: int|
            0 <= k < found@.len() ==> (#[trigger] final(targets)@[old(targets)@.len() + k])@ == (
            KillTargetView { category, id: found@[k].0@, pid: found@[k].1 }),
{
    let mut i: usize = 0;
    while i < found.len()
        invariant
            i <= found@.len(),
            targets@.len() == old(targets)@.len() + i,
            forall|k: int| 0 <= k < old(targets)@.len() ==> targets@[k] == old(targets)@[k],
            forall|k: int|
                0 <= k < i ==> (#[trigger] targets@[old(targets)@.len() + k])@ == (KillTargetView {
                    category,
                    id: found@[k].0@,
                    pid: found@[k].1,
                }),
        decreases found@.len() - i,
    {
        targets.push(KillTarget { category, id: found[i].0.clone(), pid: found[i].1 });
        i += 1;
    }
}

impl<C> ProcessManager<C> {
    /// Everything that is registered, in every category: services first,
    /// then project scripts, then global scripts.
    pub fn snapshot_all(&self) -> (targets: Vec<KillTarget>)
        requires
            self.wf(),
        ensures
            records(target_views(targets@), self@),
            by_category(target_views(targets@)),
    {
        let mut targets: Vec<KillTarget> = Vec::new();
        let services = self.snapshot(ProcessCategory::Service);
        let scripts = self.snapshot(ProcessCategory::ProjectScript);
        let globals = self.snapshot(ProcessCategory::GlobalScript);
        let ghost a = services@.len() as int;
        let ghost b = a + scripts@.len();
        add_targets(&mut targets, ProcessCategory::Service, services);
        add_targets(&mut targets, ProcessCategory::ProjectScript, scripts);
        add_targets(&mut targets, ProcessCategory::GlobalScript, globals);
        proof {
            let views = target_views(targets@);
            assert forall|i: int| 0 <= i < views.len() implies (if i < a {
                (#[trigger] views[i]).category == ProcessCategory::Service && views[i].id
                    == services@[i].0@ && views[i].pid == services@[i].1
            } else if i < b {
                views[i].category == ProcessCategory::ProjectScript && views[i].id == scripts@[i
                    - a].0@ && views[i].pid == scripts@[i - a].1
            } else {
                views[i].category == ProcessCategory::GlobalScript && views[i].id == globals@[i
                    - b].0@ && views[i].pid == globals@[i - b].1
            }) by {
                if i < a {
                    assert(targets@[0 + i]@.category == ProcessCategory::Service);
                } else if i < b {
                    assert(targets@[a + (i - a)]@.category == ProcessCategory::ProjectScript);
                } else {
                    assert(targets@[b + (i - b)]@.category == ProcessCategory::GlobalScript);
                }
            }
            assert forall|category: ProcessCategory, id: Seq<char>|
                self@.is_running(category, id) implies exists|i: int|
                0 <= i < views.len() && (#[trigger] views[i]).category == category && views[i].id
                    == id by {
                match category {
                    ProcessCategory::Service => {
                        let k = choose|k: int|
                            0 <= k < services@.len() && #[trigger] services@[k].0@ == id;
                        assert(views[k].category == category && views[k].id == id);
                    },
                    ProcessCategory::ProjectScript => {
                        let k = choose|k: int|
                            0 <= k < scripts@.len() && #[trigger] scripts@[k].0@ == id;
                        assert(views[a + k].category == category && views[a + k].id == id);
                    },
                    ProcessCategory::GlobalScript => {
                        let k = choose|k: int|
                            0 <= k < globals@.len() && #[trigger] globals@[k].0@ == id;
                        assert(views[b + k].category == category && views[b + k].id == id);
                    },
                }
            }
        }
        targets
    }

    /// Takes every handle off the registry, in every category.
    pub fn drain_all(&mut self) -> (handles: DrainedHandles<C>)
        requires
            old(self).wf(),
        ensures
            final(self).wf(),
            old(self)@.apply(Step::Drain) == (final(self)@, Seq::<EventView>::empty()),
            final(self)@ == old(self)@.drained(),
            distinct_ids(handles.services@),
            distinct_ids(handles.scripts@),
            distinct_ids(handles.global_scripts@),
            entries_map(handles.services@) == old(self)@.services.running,
            entries_map(handles.scripts@) == old(self)@.scripts.running,
            entries_map(handles.global_scripts@) == old(self)@.global_scripts.running,
    {
        let services = self.drain(ProcessCategory::Service);
        let scripts = self.drain(ProcessCategory::ProjectScript);
        let global_scripts = self.drain(ProcessCategory::GlobalScript);
        DrainedHandles { services, scripts, global_scripts }
    }

    /// Begins shutdown: sets the shutdown signal, after which no event is
    /// reported any more, and returns the shutdown to step through.
    pub fn stop_all(&mut self) -> (run: Shutdown)
        requires
            old(self).wf(),
        ensures
            final(self).wf(),
            old(self)@.apply(Step::Signal) == (final(self)@, Seq::<EventView>::empty()),
            final(self)@ == old(self)@.signalled(),
            run@ == (ShutdownView { stage: ShutdownStage::Signalled, targets: Seq::empty() }),
    {
        self.signal_shutdown();
        let run = Shutdown { stage: ShutdownStage::Signalled, targets: Vec::new() };
        assert(run@.targets =~= Seq::empty());
        run
    }

    /// One round of shutdown.
    ///
    /// In order, the rounds ask for: the pause; a robust kill of everything
    /// registered at that moment, which is recorded in `run`; a direct kill
    /// of every child, whose handles leave the registry in this round; a
    /// second robust kill of what was recorded; and nothing more.
    pub fn shutdown_step(&mut self, run: &mut Shutdown) -> (step: ShutdownStep<C>)
        requires
            old(self).wf(),
        ensures
            final(self).wf(),
            final(run)@.stage == old(run)@.stage.next(),
            match old(run)@.stage {
                ShutdownStage::Signalled => {
                    &&& step == ShutdownStep::<C>::Yield(SHUTDOWN_YIELD_MS)
                    &&& final(self)@ == old(self)@
                    &&& final(run)@.targets == old(run)@.targets
                },
                ShutdownStage::Yielded => {
                    &&& step is RobustKill
                    &&& target_views(step->RobustKill_0@) == final(run)@.targets
                    &&& records(final(run)@.targets, old(self)@)
                    &&& by_category(final(run)@.targets)
                    &&& final(self)@ == old(self)@
                },
                ShutdownStage::Swept => {
                    &&& step is DirectKill
                    &&& distinct_ids(step->DirectKill_0.services@)
                    &&& distinct_ids(step->DirectKill_0.scripts@)
                    &&& distinct_ids(step->DirectKill_0.global_scripts@)
                    &&& entries_map(step->DirectKill_0.services@) == old(self)@.services.running
                    &&& entries_map(step->DirectKill_0.scripts@) == old(self)@.scripts.running
                    &&& entries_map(step->DirectKill_0.global_scripts@)
                        == old(self)@.global_scripts.running
                    &&& final(self)@ == old(self)@.drained()
                    &&& final(run)@.targets == old(run)@.targets
                },
                ShutdownStage::Drained => {
                    &&& step is Recheck
                    &&& target_views(step->Recheck_0@) == old(run)@.targets
                    &&& final(self)@ == old(self)@
                    &&& final(run)@.targets == old(run)@.targets
                },
                ShutdownStage::Rechecked => {
                    &&& step is Done
                    &&& final(self)@ == old(self)@
                    &&& final(run)@.targets == old(run)@.targets
                },
            },
    {
        match run.stage {
            ShutdownStage::Signalled => {
                run.stage = ShutdownStage::Yielded;
                ShutdownStep::Yield(SHUTDOWN_YIELD_MS)
            },
            ShutdownStage::Yielded => {
                let targets = self.snapshot_all();
                let copy = clone_targets(&targets);
                run.targets = targets;
                run.stage = ShutdownStage::Swept;
                ShutdownStep::RobustKill(copy)
            },
            ShutdownStage::Swept => {
                let handles = self.drain_all();
                run.stage = ShutdownStage::Drained;
                ShutdownStep::DirectKill(handles)
            },
            ShutdownStage::Drained => {
                let copy = clone_targets(&run.targets);
                run.stage = ShutdownStage::Rechecked;
                ShutdownStep::Recheck(copy)
            },
            ShutdownStage::Rechecked => ShutdownStep::Done,
        }
    }
}

} // verus!
