//! The supervision engine: launch, stop, exit watching and the queries on
//! what is running.
//!
//! The engine decides; it performs no input or output. A launch is made in
//! two steps around the creation of the process, and every step hands back
//! the events to report. One value of `ProcessManager` is the state that the
//! caller guards with a lock: each method is one atomic step.

use crate::error::{ProcessError, ProcessErrorView};
use crate::events::{
    announced_event, announced_state, event_views, exit_success, exited_state, log_event,
    running_event, running_state, status_view, stopped_event, stopped_state, EngineEvent,
    EventView,
};
use crate::lifecycle::Step;
use crate::models::{texts, LogStream, Platform};
use crate::registry::{
    distinct_ids, distinct_names, entries_map, names_set, opt_text, ProcessCategory, ProcessInfo,
    ProcessInfoView, ProcessTable, TableView,
};
use crate::spawn::{
    forced_env_texts, pair_texts, parse_command, shell_flag, shell_program, SpawnRequest, Spawned,
};
use crate::termination::{basic_kill_steps, kill_process_tree, step_views, KillStep};
use vstd::prelude::*;

verus! {

/// The engine's state as a mathematical value.
pub struct ManagerView<C> {
    pub services: TableView<C>,
    pub scripts: TableView<C>,
    pub global_scripts: TableView<C>,
    /// The shutdown signal. Once true it stays true.
    pub shutdown: bool,
    pub platform: Platform,
}

impl<C> ManagerView<C> {
    /// The table of `category`.
    pub open spec fn table(self, category: ProcessCategory) -> TableView<C> {
        match category {
            ProcessCategory::Service => self.services,
            ProcessCategory::ProjectScript => self.scripts,
            ProcessCategory::GlobalScript => self.global_scripts,
        }
    }

    /// This state with `table` in the place of the table of `category`.
    pub open spec fn with_table(self, category: ProcessCategory, table: TableView<C>) -> Self {
        match category {
            ProcessCategory::Service => ManagerView { services: table, ..self },
            ProcessCategory::ProjectScript => ManagerView { scripts: table, ..self },
            ProcessCategory::GlobalScript => ManagerView { global_scripts: table, ..self },
        }
    }

    /// What holds of every state of the engine: each table is consistent.
    pub open spec fn consistent(self) -> bool {
        &&& self.services.consistent()
        &&& self.scripts.consistent()
        &&& self.global_scripts.consistent()
    }

    /// Whether a process is registered for the entity.
    pub open spec fn is_running(self, category: ProcessCategory, id: Seq<char>) -> bool {
        self.table(category).running.contains_key(id)
    }

    /// Whether the slot of the entity is taken, by a process or by a launch
    /// in flight.
    pub open spec fn is_occupied(self, category: ProcessCategory, id: Seq<char>) -> bool {
        self.table(category).occupied(id)
    }

    /// The handle registered for the entity.
    pub open spec fn handle(self, category: ProcessCategory, id: Seq<char>) -> ProcessInfoView<C> {
        self.table(category).running[id]
    }

    /// What is reported of `events` in this state: nothing once shutdown has
    /// begun, all of them before.
    pub open spec fn visible(self, events: Seq<EventView>) -> Seq<EventView> {
        if self.shutdown {
            Seq::empty()
        } else {
            events
        }
    }

    /// This state with the slot of the entity reserved.
    pub open spec fn reserve(self, category: ProcessCategory, id: Seq<char>) -> Self {
        let table = self.table(category);
        self.with_table(
            category,
            TableView { running: table.running, reserved: table.reserved.insert(id) },
        )
    }

    /// This state with the reservation of the entity given up.
    pub open spec fn release(self, category: ProcessCategory, id: Seq<char>) -> Self {
        let table = self.table(category);
        self.with_table(
            category,
            TableView { running: table.running, reserved: table.reserved.remove(id) },
        )
    }

    /// This state with `handle` registered under its id, in the place of the
    /// reservation.
    pub open spec fn enroll(self, category: ProcessCategory, handle: ProcessInfoView<C>) -> Self {
        let table = self.table(category);
        self.with_table(
            category,
            TableView {
                running: table.running.insert(handle.service_id, handle),
                reserved: table.reserved.remove(handle.service_id),
            },
        )
    }

    /// This state without the handle of the entity.
    pub open spec fn evict(self, category: ProcessCategory, id: Seq<char>) -> Self {
        let table = self.table(category);
        self.with_table(
            category,
            TableView { running: table.running.remove(id), reserved: table.reserved },
        )
    }

    /// This state with the shutdown signal set.
    pub open spec fn signalled(self) -> Self {
        ManagerView { shutdown: true, ..self }
    }

    /// This state with nothing running. Reservations stay.
    pub open spec fn drained(self) -> Self {
        ManagerView {
            services: TableView { running: Map::empty(), reserved: self.services.reserved },
            scripts: TableView { running: Map::empty(), reserved: self.scripts.reserved },
            global_scripts: TableView {
                running: Map::empty(),
                reserved: self.global_scripts.reserved,
            },
            ..self
        }
    }

    /// The event that announces the launch of the entity.
    pub open spec fn announcement(
        category: ProcessCategory,
        id: Seq<char>,
        active_mode: Option<Seq<char>>,
        active_arg_preset: Option<Seq<char>>,
    ) -> EventView {
        status_view(category, id, announced_state(category), None, active_mode, active_arg_preset)
    }

    /// The event that reports the created process of `handle`.
    pub open spec fn running_report(
        category: ProcessCategory,
        handle: ProcessInfoView<C>,
    ) -> EventView {
        status_view(
            category,
            handle.service_id,
            running_state(category),
            Some(handle.pid),
            handle.active_mode,
            handle.active_arg_preset,
        )
    }

    /// The terminal event of a stop on request of `handle`.
    pub open spec fn stop_report(category: ProcessCategory, handle: ProcessInfoView<C>) -> EventView {
        status_view(
            category,
            handle.service_id,
            stopped_state(category),
            None,
            handle.active_mode,
            handle.active_arg_preset,
        )
    }

    /// The two terminal events of `handle` whose process ended by itself with
    /// `exit_code`: the status, then the exit.
    pub open spec fn exit_report(
        category: ProcessCategory,
        handle: ProcessInfoView<C>,
        exit_code: Option<i32>,
    ) -> Seq<EventView> {
        seq![
            status_view(
                category,
                handle.service_id,
                exited_state(category, exit_code),
                None,
                handle.active_mode,
                handle.active_arg_preset,
            ),
            EventView::Exit {
                category,
                id: handle.service_id,
                exit_code,
                success: exit_success(exit_code),
            },
        ]
    }
}

/// What identifies a launch between its two steps.
#[derive(Debug)]
pub struct LaunchTicket {
    pub category: ProcessCategory,
    pub id: String,
    pub active_mode: Option<String>,
    pub active_arg_preset: Option<String>,
}

/// The first step of a launch went through: the slot is reserved. The caller
/// reports `events`, creates the process that `request` describes, and comes
/// back with `ticket` and the outcome.
#[derive(Debug)]
pub struct LaunchPlan {
    pub ticket: LaunchTicket,
    pub request: SpawnRequest,
    pub events: Vec<EngineEvent>,
}

/// A launch went through: the process `pid` is registered. The caller
/// reports `events`, then starts one output pump per stream and the exit
/// watch.
#[derive(Debug)]
pub struct Launched {
    pub pid: u32,
    pub events: Vec<EngineEvent>,
}

/// A stop went through: `handle` has left the registry. The caller
/// performs `kill_steps`, which terminate the process tree of `handle.pid`,
/// signals the owned child as a fallback, and then reports `events`.
#[derive(Debug)]
pub struct Stopped<C> {
    pub handle: ProcessInfo<C>,
    pub kill_steps: Vec<KillStep>,
    pub events: Vec<EngineEvent>,
}

/// The supervision engine's state: one table per category and the shutdown
/// signal.
pub struct ProcessManager<C> {
    processes: ProcessTable<C>,
    scripts: ProcessTable<C>,
    global_scripts: ProcessTable<C>,
    shutdown_flag: bool,
    platform: Platform,
}

impl<C> View for ProcessManager<C> {
    type V = ManagerView<C>;

    closed spec fn view(&self) -> ManagerView<C> {
        ManagerView {
            services: self.processes@,
            scripts: self.scripts@,
            global_scripts: self.global_scripts@,
            shutdown: self.shutdown_flag,
            platform: self.platform,
        }
    }
}

impl<C> ProcessManager<C> {
    /// The engine's invariant: every table is well formed.
    pub closed spec fn wf(&self) -> bool {
        &&& self.processes.wf()
        &&& self.scripts.wf()
        &&& self.global_scripts.wf()
    }

    /// A well-formed engine stands for a consistent state.
    pub proof fn lemma_consistent(&self)
        requires
            self.wf(),
        ensures
            self@.consistent(),
    {
        self.processes.lemma_consistent();
        self.scripts.lemma_consistent();
        self.global_scripts.lemma_consistent();
    }

    /// An engine for `platform` with nothing running and shutdown not begun.
    pub fn new(platform: Platform) -> (manager: Self)
        ensures
            manager.wf(),
            manager@ == (ManagerView::<C> {
                services: TableView::empty(),
                scripts: TableView::empty(),
                global_scripts: TableView::empty(),
                shutdown: false,
                platform,
            }),
    {
        ProcessManager {
            processes: ProcessTable::new(),
            scripts: ProcessTable::new(),
            global_scripts: ProcessTable::new(),
            shutdown_flag: false,
            platform,
        }
    }

    /// Whether shutdown has begun.
    pub fn get_shutdown_flag(&self) -> (flag: bool)
        ensures
            flag == self@.shutdown,
    {
        self.shutdown_flag
    }

    /// The platform this engine decides for.
    pub fn platform(&self) -> (platform: Platform)
        ensures
            platform == self@.platform,
    {
        self.platform
    }

    /// Whether a process is registered for the entity `id` of `category`.
    pub fn is_running_in(&self, category: ProcessCategory, id: &str) -> (running: bool)
        ensures
            running == self@.is_running(category, id@),
    {
        match category {
            ProcessCategory::Service => self.processes.contains(id),
            ProcessCategory::ProjectScript => self.scripts.contains(id),
            ProcessCategory::GlobalScript => self.global_scripts.contains(id),
        }
    }

    /// Whether the service is running.
    pub fn is_running(&self, service_id: &str) -> (running: bool)
        ensures
            running == self@.is_running(ProcessCategory::Service, service_id@),
    {
        self.is_running_in(ProcessCategory::Service, service_id)
    }

    /// Whether the project script is running.
    pub fn is_script_running(&self, script_id: &str) -> (running: bool)
        ensures
            running == self@.is_running(ProcessCategory::ProjectScript, script_id@),
    {
        self.is_running_in(ProcessCategory::ProjectScript, script_id)
    }

    /// Whether the global script is running.
    pub fn is_global_script_running(&self, script_id: &str) -> (running: bool)
        ensures
            running == self@.is_running(ProcessCategory::GlobalScript, script_id@),
    {
        self.is_running_in(ProcessCategory::GlobalScript, script_id)
    }

    /// Whether a launch of the entity is in flight.
    pub fn is_reserved(&self, category: ProcessCategory, id: &str) -> (reserved: bool)
        ensures
            reserved == self@.table(category).reserved.contains(id@),
    {
        match category {
            ProcessCategory::Service => self.processes.is_reserved(id),
            ProcessCategory::ProjectScript => self.scripts.is_reserved(id),
            ProcessCategory::GlobalScript => self.global_scripts.is_reserved(id),
        }
    }

    /// A snapshot of the ids that are running in `category`, each once.
    pub fn list_running(&self, category: ProcessCategory) -> (ids: Vec<String>)
        requires
            self.wf(),
        ensures
            distinct_names(ids@),
            names_set(ids@) == self@.table(category).running.dom(),
            ids@.len() == self@.table(category).running.dom().len(),
    {
        match category {
            ProcessCategory::Service => self.processes.ids(),
            ProcessCategory::ProjectScript => self.scripts.ids(),
            ProcessCategory::GlobalScript => self.global_scripts.ids(),
        }
    }

    /// A snapshot of the ids of the running services, each once.
    pub fn get_running_services(&self) -> (ids: Vec<String>)
        requires
            self.wf(),
        ensures
            distinct_names(ids@),
            names_set(ids@) == self@.services.running.dom(),
            ids@.len() == self@.services.running.dom().len(),
    {
        self.list_running(ProcessCategory::Service)
    }

    /// Whether anything is running, in any category.
    pub fn has_running_processes(&self) -> (any: bool)
        ensures
            any == !(self@.services.running =~= Map::empty() && self@.scripts.running
                =~= Map::empty() && self@.global_scripts.running =~= Map::empty()),
    {
        !self.processes.is_empty() || !self.scripts.is_empty() || !self.global_scripts.is_empty()
    }

    /// The handle registered for the entity, if any.
    pub fn lookup(&self, category: ProcessCategory, id: &str) -> (handle: Option<&ProcessInfo<C>>)
        requires
            self.wf(),
        ensures
            handle is Some <==> self@.is_running(category, id@),
            handle is Some ==> handle->Some_0@ == self@.handle(category, id@),
    {
        match category {
            ProcessCategory::Service => self.processes.lookup(id),
            ProcessCategory::ProjectScript => self.scripts.lookup(id),
            ProcessCategory::GlobalScript => self.global_scripts.lookup(id),
        }
    }

    /// The events to report out of `events`: none once shutdown has begun.
    fn filter_events(&self, events: Vec<EngineEvent>) -> (shown: Vec<EngineEvent>)
        ensures
            event_views(shown@) == self@.visible(event_views(events@)),
    {
        if self.shutdown_flag {
            let shown: Vec<EngineEvent> = Vec::new();
            assert(event_views(shown@) =~= Seq::empty());
            shown
        } else {
            events
        }
    }

    /// The first step of a launch. Reserves the slot of the entity `id` of
    /// `category` in one atomic check, and says which process to create.
    ///
    /// Fails with `AlreadyRunning` when the slot is occupied, by a running
    /// process or by another launch in flight; nothing changes then and no
    /// process is to be created.
    pub fn begin_launch(
        &mut self,
        category: ProcessCategory,
        id: String,
        working_dir: String,
        program: String,
        args: Vec<String>,
        env_vars: Option<Vec<(String, String)>>,
        mode: Option<String>,
        arg_preset: Option<String>,
    ) -> (outcome: Result<LaunchPlan, ProcessError>)
        requires
            old(self).wf(),
        ensures
            final(self).wf(),
            old(self)@.apply(
                Step::Begin {
                    category: category,
                    id: id@,
                    active_mode: opt_text(mode),
                    active_arg_preset: opt_text(arg_preset),
                },
            ) == (final(self)@, plan_events(outcome)),
            outcome is Err <==> old(self)@.is_occupied(category, id@),
            outcome is Err ==> {
                &&& outcome->Err_0@ == ProcessErrorView::AlreadyRunning(id@)
                &&& final(self)@ == old(self)@
            },
            outcome is Ok ==> {
                let plan = outcome->Ok_0;
                &&& final(self)@ == old(self)@.reserve(category, id@)
                &&& plan.ticket.category == category
                &&& plan.ticket.id@ == id@
                &&& opt_text(plan.ticket.active_mode) == opt_text(mode)
                &&& opt_text(plan.ticket.active_arg_preset) == opt_text(arg_preset)
                &&& plan.request.program == program
                &&& plan.request.args == args
                &&& plan.request.working_dir == working_dir
                &&& plan.request.env_vars == env_vars
                &&& pair_texts(plan.request.forced_env@) == forced_env_texts(old(self)@.platform)
                &&& plan.request.hide_window == (old(self)@.platform == Platform::Windows)
                &&& event_views(plan.events@) == old(self)@.visible(
                    seq![
                        ManagerView::<C>::announcement(
                            category,
                            id@,
                            opt_text(mode),
                            opt_text(arg_preset),
                        ),
                    ],
                )
            },
    {
        let made = match category {
            ProcessCategory::Service => self.processes.reserve(id.as_str()),
            ProcessCategory::ProjectScript => self.scripts.reserve(id.as_str()),
            ProcessCategory::GlobalScript => self.global_scripts.reserve(id.as_str()),
        };
        if !made {
            return Err(ProcessError::AlreadyRunning(id));
        }
        let mut events: Vec<EngineEvent> = Vec::new();
        events.push(announced_event(category, id.as_str(), &mode, &arg_preset));
        assert(event_views(events@) =~= seq![
            ManagerView::<C>::announcement(category, id@, opt_text(mode), opt_text(arg_preset)),
        ]);
        let events = self.filter_events(events);
        let request = SpawnRequest::new(self.platform, program, args, working_dir, env_vars);
        Ok(
            LaunchPlan {
                ticket: LaunchTicket {
                    category,
                    id,
                    active_mode: mode,
                    active_arg_preset: arg_preset,
                },
                request,
                events,
            },
        )
    }

    /// Launches a service: the first step of the launch of `service_id`,
    /// whose command line runs in the platform's shell.
    pub fn start_service(
        &mut self,
        service_id: String,
        working_dir: String,
        command: String,
        env_vars: Option<Vec<(String, String)>>,
        mode: Option<String>,
        arg_preset: Option<String>,
    ) -> (outcome: Result<LaunchPlan, ProcessError>)
        requires
            old(self).wf(),
        ensures
            final(self).wf(),
            old(self)@.apply(
                Step::Begin {
                    category: ProcessCategory::Service,
                    id: service_id@,
                    active_mode: opt_text(mode),
                    active_arg_preset: opt_text(arg_preset),
                },
            ) == (final(self)@, plan_events(outcome)),
            outcome is Err <==> old(self)@.is_occupied(ProcessCategory::Service, service_id@),
            outcome is Err ==> {
                &&& outcome->Err_0@ == ProcessErrorView::AlreadyRunning(service_id@)
                &&& final(self)@ == old(self)@
            },
            outcome is Ok ==> {
                let plan = outcome->Ok_0;
                &&& final(self)@ == old(self)@.reserve(ProcessCategory::Service, service_id@)
                &&& plan.ticket.category == ProcessCategory::Service
                &&& plan.ticket.id@ == service_id@
                &&& opt_text(plan.ticket.active_mode) == opt_text(mode)
                &&& opt_text(plan.ticket.active_arg_preset) == opt_text(arg_preset)
                &&& plan.request.program@ == shell_program(old(self)@.platform)
                &&& texts(plan.request.args@) == seq![
                    shell_flag(old(self)@.platform),
                    command@,
                ]
                &&& plan.request.working_dir == working_dir
                &&& plan.request.env_vars == env_vars
                &&& pair_texts(plan.request.forced_env@) == forced_env_texts(old(self)@.platform)
                &&& plan.request.hide_window == (old(self)@.platform == Platform::Windows)
                &&& event_views(plan.events@) == old(self)@.visible(
                    seq![
                        ManagerView::<C>::announcement(
                            ProcessCategory::Service,
                            service_id@,
                            opt_text(mode),
                            opt_text(arg_preset),
                        ),
                    ],
                )
            },
    {
        let (program, args) = parse_command(self.platform, command.as_str());
        self.begin_launch(
            ProcessCategory::Service,
            service_id,
            working_dir,
            program,
            args,
            env_vars,
            mode,
            arg_preset,
        )
    }

    /// Runs a project script: the first step of the launch of `script_id`,
    /// whose command line runs in the platform's shell.
    pub fn run_script(&mut self, script_id: String, working_dir: String, command: String) -> (outcome:
        Result<LaunchPlan, ProcessError>)
        requires
            old(self).wf(),
        ensures
            final(self).wf(),
            old(self)@.apply(
                Step::Begin {
                    category: ProcessCategory::ProjectScript,
                    id: script_id@,
                    active_mode: None,
                    active_arg_preset: None,
                },
            ) == (final(self)@, plan_events(outcome)),
            outcome is Err <==> old(self)@.is_occupied(ProcessCategory::ProjectScript, script_id@),
            outcome is Err ==> {
                &&& outcome->Err_0@ == ProcessErrorView::AlreadyRunning(script_id@)
                &&& final(self)@ == old(self)@
            },
            outcome is Ok ==> {
                let plan = outcome->Ok_0;
                &&& final(self)@ == old(self)@.reserve(ProcessCategory::ProjectScript, script_id@)
                &&& plan.ticket.category == ProcessCategory::ProjectScript
                &&& plan.ticket.id@ == script_id@
                &&& plan.ticket.active_mode is None
                &&& plan.ticket.active_arg_preset is None
                &&& plan.request.program@ == shell_program(old(self)@.platform)
                &&& texts(plan.request.args@) == seq![
                    shell_flag(old(self)@.platform),
                    command@,
                ]
                &&& plan.request.working_dir == working_dir
                &&& plan.request.env_vars is None
                &&& pair_texts(plan.request.forced_env@) == forced_env_texts(old(self)@.platform)
                &&& plan.request.hide_window == (old(self)@.platform == Platform::Windows)
                &&& event_views(plan.events@) == old(self)@.visible(
                    seq![
                        ManagerView::<C>::announcement(
                            ProcessCategory::ProjectScript,
                            script_id@,
                            None,
                            None,
                        ),
                    ],
                )
            },
    {
        let (program, args) = parse_command(self.platform, command.as_str());
        self.begin_launch(
            ProcessCategory::ProjectScript,
            script_id,
            working_dir,
            program,
            args,
            None,
            None,
            None,
        )
    }

    /// Runs a global script: the first step of the launch of `script_id`,
    /// which runs `program` with `args`.
    pub fn run_global_script(
        &mut self,
        script_id: String,
        working_dir: String,
        program: String,
        args: Vec<String>,
        env_vars: Option<Vec<(String, String)>>,
    ) -> (outcome: Result<LaunchPlan, ProcessError>)
        requires
            old(self).wf(),
        ensures
            final(self).wf(),
            old(self)@.apply(
                Step::Begin {
                    category: ProcessCategory::GlobalScript,
                    id: script_id@,
                    active_mode: None,
                    active_arg_preset: None,
                },
            ) == (final(self)@, plan_events(outcome)),
            outcome is Err <==> old(self)@.is_occupied(ProcessCategory::GlobalScript, script_id@),
            outcome is Err ==> {
                &&& outcome->Err_0@ == ProcessErrorView::AlreadyRunning(script_id@)
                &&& final(self)@ == old(self)@
            },
            outcome is Ok ==> {
                let plan = outcome->Ok_0;
                &&& final(self)@ == old(self)@.reserve(ProcessCategory::GlobalScript, script_id@)
                &&& plan.ticket.category == ProcessCategory::GlobalScript
                &&& plan.ticket.id@ == script_id@
                &&& plan.ticket.active_mode is None
                &&& plan.ticket.active_arg_preset is None
                &&& plan.request.program == program
                &&& plan.request.args == args
                &&& plan.request.working_dir == working_dir
                &&& plan.request.env_vars == env_vars
                &&& pair_texts(plan.request.forced_env@) == forced_env_texts(old(self)@.platform)
                &&& plan.request.hide_window == (old(self)@.platform == Platform::Windows)
                &&& event_views(plan.events@) == old(self)@.visible(
                    seq![
                        ManagerView::<C>::announcement(
                            ProcessCategory::GlobalScript,
                            script_id@,
                            None,
                            None,
                        ),
                    ],
                )
            },
    {
        self.begin_launch(
            ProcessCategory::GlobalScript,
            script_id,
            working_dir,
            program,
            args,
            env_vars,
            None,
            None,
        )
    }

    /// The second step of a launch, after the attempt to create the process.
    ///
    /// When the process could not be created, the reservation is given up,
    /// so that the entity can be launched again at once, and the launch
    /// fails with `SpawnFailed` and the reason. Otherwise the handle is
    /// registered in the place of the reservation and its process id is
    /// returned, with the event that reports it.
    pub fn complete_launch(
        &mut self,
        ticket: LaunchTicket,
        spawned: Result<Spawned<C>, String>,
    ) -> (outcome: Result<Launched, ProcessError>)
        requires
            old(self).wf(),
            old(self)@.table(ticket.category).reserved.contains(ticket.id@),
        ensures
            final(self).wf(),
            old(self)@.apply(completion_step(ticket, spawned)) == (
                final(self)@,
                launched_events(outcome),
            ),
            outcome is Ok <==> spawned is Ok,
            spawned is Err ==> {
                &&& outcome->Err_0@ == ProcessErrorView::SpawnFailed(spawned->Err_0@)
                &&& final(self)@ == old(self)@.release(ticket.category, ticket.id@)
            },
            spawned is Ok ==> {
                let handle = launched_handle(ticket, spawned->Ok_0);
                &&& outcome->Ok_0.pid == spawned->Ok_0.pid
                &&& final(self)@ == old(self)@.enroll(ticket.category, handle)
                &&& event_views(outcome->Ok_0.events@) == old(self)@.visible(
                    seq![ManagerView::<C>::running_report(ticket.category, handle)],
                )
            },
    {
        let category = ticket.category;
        match spawned {
            Err(reason) => {
                match category {
                    ProcessCategory::Service => {
                        self.processes.release(ticket.id.as_str());
                    },
                    ProcessCategory::ProjectScript => {
                        self.scripts.release(ticket.id.as_str());
                    },
                    ProcessCategory::GlobalScript => {
                        self.global_scripts.release(ticket.id.as_str());
                    },
                }
                Err(ProcessError::SpawnFailed(reason))
            },
            Ok(child) => {
                let pid = child.pid;
                let mut events: Vec<EngineEvent> = Vec::new();
                events.push(
                    running_event(
                        category,
                        ticket.id.as_str(),
                        pid,
                        &ticket.active_mode,
                        &ticket.active_arg_preset,
                    ),
                );
                let ghost handle = launched_handle(ticket, child);
                assert(event_views(events@) =~= seq![
                    ManagerView::<C>::running_report(category, handle),
                ]);
                let events = self.filter_events(events);
                let info = ProcessInfo {
                    child: child.child,
                    service_id: ticket.id,
                    pid,
                    active_mode: ticket.active_mode,
                    active_arg_preset: ticket.active_arg_preset,
                };
                assert(info@ == handle);
                proof {
                    self.lemma_consistent();
                }
                let registered = match category {
                    ProcessCategory::Service => self.processes.register(info),
                    ProcessCategory::ProjectScript => self.scripts.register(info),
                    ProcessCategory::GlobalScript => self.global_scripts.register(info),
                };
                assert(registered is Ok);
                Ok(Launched { pid, events })
            },
        }
    }

    /// Removes the handle of the entity from the registry and returns it, or
    /// `None` when the entity is not running.
    pub(crate) fn remove(&mut self, category: ProcessCategory, id: &str) -> (handle: Option<
        ProcessInfo<C>,
    >)
        requires
            old(self).wf(),
        ensures
            final(self).wf(),
            handle is Some <==> old(self)@.is_running(category, id@),
            handle is Some ==> handle->Some_0@ == old(self)@.handle(category, id@),
            final(self)@ == old(self)@.evict(category, id@),
    {
        match category {
            ProcessCategory::Service => self.processes.remove(id),
            ProcessCategory::ProjectScript => self.scripts.remove(id),
            ProcessCategory::GlobalScript => self.global_scripts.remove(id),
        }
    }

    /// Stops the entity `id` of `category` on request.
    ///
    /// Fails with `NotRunning` when no process is registered for it; nothing
    /// changes then. Otherwise the handle leaves the registry first, so that
    /// no exit watch reports the same end again, and is returned with the one
    /// terminal status event: `Stopped` for a service, `Failed` for a script,
    /// never `Completed`, and no exit event.
    pub fn stop(&mut self, category: ProcessCategory, id: &str) -> (outcome: Result<
        Stopped<C>,
        ProcessError,
    >)
        requires
            old(self).wf(),
        ensures
            final(self).wf(),
            old(self)@.apply(Step::Stop { category: category, id: id@ }) == (
                final(self)@,
                stopped_events(outcome),
            ),
            outcome is Ok <==> old(self)@.is_running(category, id@),
            outcome is Err ==> {
                &&& outcome->Err_0@ == ProcessErrorView::NotRunning(id@)
                &&& final(self)@ == old(self)@
            },
            outcome is Ok ==> {
                let handle = old(self)@.handle(category, id@);
                &&& outcome->Ok_0.handle@ == handle
                &&& step_views(outcome->Ok_0.kill_steps@) == basic_kill_steps(
                    old(self)@.platform,
                    handle.pid,
                )
                &&& final(self)@ == old(self)@.evict(category, id@)
                &&& event_views(outcome->Ok_0.events@) == old(self)@.visible(
                    seq![ManagerView::<C>::stop_report(category, handle)],
                )
            },
    {
        let ghost before = self@;
        proof {
            self.lemma_consistent();
        }
        match self.remove(category, id) {
            None => {
                assert(before.evict(category, id@) == before) by {
                    assert(before.table(category).running.remove(id@)
                        =~= before.table(category).running);
                }
                Err(ProcessError::NotRunning(id.to_owned()))
            },
            Some(handle) => {
                let mut events: Vec<EngineEvent> = Vec::new();
                events.push(
                    stopped_event(category, id, &handle.active_mode, &handle.active_arg_preset),
                );
                proof {
                    assert(before.consistent());
                    assert(before.table(category).running.contains_key(id@));
                    assert(event_views(events@) =~= seq![
                        ManagerView::<C>::stop_report(category, handle@),
                    ]);
                }
                let events = self.filter_events(events);
                let kill_steps = kill_process_tree(self.platform, handle.pid);
                Ok(Stopped { handle, kill_steps, events })
            },
        }
    }

    /// Stops the service on request.
    pub fn stop_service(&mut self, service_id: &str) -> (outcome: Result<Stopped<C>, ProcessError>)
        requires
            old(self).wf(),
        ensures
            final(self).wf(),
            old(self)@.apply(Step::Stop { category: ProcessCategory::Service, id: service_id@ }) == (
                final(self)@,
                stopped_events(outcome),
            ),
            outcome is Ok <==> old(self)@.is_running(ProcessCategory::Service, service_id@),
            outcome is Err ==> {
                &&& outcome->Err_0@ == ProcessErrorView::NotRunning(service_id@)
                &&& final(self)@ == old(self)@
            },
            outcome is Ok ==> {
                let handle = old(self)@.handle(ProcessCategory::Service, service_id@);
                &&& outcome->Ok_0.handle@ == handle
                &&& step_views(outcome->Ok_0.kill_steps@) == basic_kill_steps(
                    old(self)@.platform,
                    handle.pid,
                )
                &&& final(self)@ == old(self)@.evict(ProcessCategory::Service, service_id@)
                &&& event_views(outcome->Ok_0.events@) == old(self)@.visible(
                    seq![ManagerView::<C>::stop_report(ProcessCategory::Service, handle)],
                )
            },
    {
        self.stop(ProcessCategory::Service, service_id)
    }

    /// Stops the project script on request.
    pub fn stop_script(&mut self, script_id: &str) -> (outcome: Result<Stopped<C>, ProcessError>)
        requires
            old(self).wf(),
        ensures
            final(self).wf(),
            old(self)@.apply(Step::Stop { category: ProcessCategory::ProjectScript, id: script_id@ }) == (
                final(self)@,
                stopped_events(outcome),
            ),
            outcome is Ok <==> old(self)@.is_running(ProcessCategory::ProjectScript, script_id@),
            outcome is Err ==> {
                &&& outcome->Err_0@ == ProcessErrorView::NotRunning(script_id@)
                &&& final(self)@ == old(self)@
            },
            outcome is Ok ==> {
                let handle = old(self)@.handle(ProcessCategory::ProjectScript, script_id@);
                &&& outcome->Ok_0.handle@ == handle
                &&& step_views(outcome->Ok_0.kill_steps@) == basic_kill_steps(
                    old(self)@.platform,
                    handle.pid,
                )
                &&& final(self)@ == old(self)@.evict(ProcessCategory::ProjectScript, script_id@)
                &&& event_views(outcome->Ok_0.events@) == old(self)@.visible(
                    seq![ManagerView::<C>::stop_report(ProcessCategory::ProjectScript, handle)],
                )
            },
    {
        self.stop(ProcessCategory::ProjectScript, script_id)
    }

    /// Stops the global script on request.
    pub fn stop_global_script(&mut self, script_id: &str) -> (outcome: Result<
        Stopped<C>,
        ProcessError,
    >)
        requires
            old(self).wf(),
        ensures
            final(self).wf(),
            old(self)@.apply(Step::Stop { category: ProcessCategory::GlobalScript, id: script_id@ }) == (
                final(self)@,
                stopped_events(outcome),
            ),
            outcome is Ok <==> old(self)@.is_running(ProcessCategory::GlobalScript, script_id@),
            outcome is Err ==> {
                &&& outcome->Err_0@ == ProcessErrorView::NotRunning(script_id@)
                &&& final(self)@ == old(self)@
            },
            outcome is Ok ==> {
                let handle = old(self)@.handle(ProcessCategory::GlobalScript, script_id@);
                &&& outcome->Ok_0.handle@ == handle
                &&& step_views(outcome->Ok_0.kill_steps@) == basic_kill_steps(
                    old(self)@.platform,
                    handle.pid,
                )
                &&& final(self)@ == old(self)@.evict(ProcessCategory::GlobalScript, script_id@)
                &&& event_views(outcome->Ok_0.events@) == old(self)@.visible(
                    seq![ManagerView::<C>::stop_report(ProcessCategory::GlobalScript, handle)],
                )
            },
    {
        self.stop(ProcessCategory::GlobalScript, script_id)
    }

    /// Sets the shutdown signal. It is never cleared again.
    pub fn signal_shutdown(&mut self)
        requires
            old(self).wf(),
        ensures
            final(self).wf(),
            old(self)@.apply(Step::Signal) == (final(self)@, Seq::<EventView>::empty()),
            final(self)@ == old(self)@.signalled(),
    {
        self.shutdown_flag = true;
    }

    /// The id and process id of everything that runs in `category`, each
    /// entity once.
    pub fn snapshot(&self, category: ProcessCategory) -> (targets: Vec<(String, u32)>)
        requires
            self.wf(),
        ensures
            targets@.len() == self@.table(category).running.dom().len(),
            forall|i: int|
                0 <= i < targets@.len() ==> self@.is_running(category, #[trigger] targets@[i].0@)
                    && self@.handle(category, targets@[i].0@).pid == targets@[i].1,
            forall|i: int, j: int|
                0 <= i < targets@.len() && 0 <= j < targets@.len() && i != j
                    ==> #[trigger] targets@[i].0@ != #[trigger] targets@[j].0@,
            forall|id: Seq<char>|
                self@.is_running(category, id) ==> exists|i: int|
                    0 <= i < targets@.len() && #[trigger] targets@[i].0@ == id,
    {
        match category {
            ProcessCategory::Service => self.processes.snapshot(),
            ProcessCategory::ProjectScript => self.scripts.snapshot(),
            ProcessCategory::GlobalScript => self.global_scripts.snapshot(),
        }
    }

    /// Takes every handle of `category` off the registry and returns them.
    pub(crate) fn drain(&mut self, category: ProcessCategory) -> (handles: Vec<ProcessInfo<C>>)
        requires
            old(self).wf(),
        ensures
            final(self).wf(),
            final(self)@ == old(self)@.with_table(
                category,
                TableView {
                    running: Map::empty(),
                    reserved: old(self)@.table(category).reserved,
                },
            ),
            distinct_ids(handles@),
            entries_map(handles@) == old(self)@.table(category).running,
    {
        match category {
            ProcessCategory::Service => self.processes.drain(),
            ProcessCategory::ProjectScript => self.scripts.drain(),
            ProcessCategory::GlobalScript => self.global_scripts.drain(),
        }
    }

    /// The event for one line that an output pump has read, or `None` once
    /// shutdown has begun.
    pub fn pump_line(
        &self,
        category: ProcessCategory,
        id: &str,
        stream: LogStream,
        content: String,
    ) -> (event: Option<EngineEvent>)
        ensures
            self@.apply(Step::Line { category, id: id@, stream, text: content@ }) == (
                self@,
                match event {
                    Some(e) => seq![e@],
                    None => Seq::empty(),
                },
            ),
            event is Some <==> !self@.shutdown,
            event is Some ==> event->Some_0@ == (EventView::Log {
                category,
                id: id@,
                stream,
                text: content@,
            }),
    {
        if self.shutdown_flag {
            None
        } else {
            Some(log_event(category, id, stream, content))
        }
    }
}

/// The events that the first step of a launch hands out; none when it is
/// refused.
pub open spec fn plan_events(outcome: Result<LaunchPlan, ProcessError>) -> Seq<EventView> {
    match outcome {
        Ok(plan) => event_views(plan.events@),
        Err(_) => Seq::empty(),
    }
}

/// The events that the second step of a launch hands out; none when the
/// launch failed.
pub open spec fn launched_events(outcome: Result<Launched, ProcessError>) -> Seq<EventView> {
    match outcome {
        Ok(launched) => event_views(launched.events@),
        Err(_) => Seq::empty(),
    }
}

/// The events that a stop hands out; none when it is refused.
pub open spec fn stopped_events<C>(outcome: Result<Stopped<C>, ProcessError>) -> Seq<EventView> {
    match outcome {
        Ok(stopped) => event_views(stopped.events@),
        Err(_) => Seq::empty(),
    }
}

/// The step that the completion of a launch makes.
pub open spec fn completion_step<C>(ticket: LaunchTicket, spawned: Result<Spawned<C>, String>) -> Step<
    C,
> {
    match spawned {
        Ok(child) => Step::Spawned {
            category: ticket.category,
            handle: launched_handle(ticket, child),
        },
        Err(_) => Step::SpawnFailed { category: ticket.category, id: ticket.id@ },
    }
}

/// The handle that a launch registers: the child and process id that the
/// operating system gave, under the id and with the mode and preset of the
/// ticket.
pub open spec fn launched_handle<C>(ticket: LaunchTicket, spawned: Spawned<C>) -> ProcessInfoView<
    C,
> {
    ProcessInfoView {
        child: spawned.child,
        service_id: ticket.id@,
        pid: spawned.pid,
        active_mode: opt_text(ticket.active_mode),
        active_arg_preset: opt_text(ticket.active_arg_preset),
    }
}

} // verus!
