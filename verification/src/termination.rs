//! How a process and its descendants are terminated.
//!
//! There are two strategies, one per platform family: signals to the process
//! group where POSIX groups exist, a tree-kill utility where they do not.
//! Each comes in two tiers. The basic kill is a fixed list of steps and is
//! used for a stop on request. The robust kill, used during shutdown, looks
//! at what its commands report: it checks whether the process is still
//! there, tries once more if so, and sweeps for children that are left.
//!
//! Nothing here runs a command. The functions say which commands to run and
//! how long to wait, and decide on what the caller reports back.

use crate::error::{ProcessError, ProcessErrorView};
use crate::models::{texts, Platform};
use crate::text::{concat, contains, decimal, decimal_text, spec_contains};
use vstd::prelude::*;

verus! {

/// How long a kill waits for signals to take effect, in milliseconds.
pub const SETTLE_MS: u64 = 100;

/// How long the tree-kill utility is given before it is tried again, in
/// milliseconds.
pub const RETRY_DELAY_MS: u64 = 200;

/// A program and its arguments.
#[derive(Debug, Clone)]
pub struct CommandLine {
    pub program: String,
    pub args: Vec<String>,
}

/// A `CommandLine` as a mathematical value.
pub struct CommandLineView {
    pub program: Seq<char>,
    pub args: Seq<Seq<char>>,
}

impl View for CommandLine {
    type V = CommandLineView;

    open spec fn view(&self) -> CommandLineView {
        CommandLineView { program: self.program@, args: texts(self.args@) }
    }
}

/// One step of a kill: a command to run to its end, whatever it reports, or
/// a pause in milliseconds.
#[derive(Debug, Clone)]
pub enum KillStep {
    Run(CommandLine),
    Sleep(u64),
}

/// A `KillStep` as a mathematical value.
pub enum KillStepView {
    Run(CommandLineView),
    Sleep(u64),
}

impl View for KillStep {
    type V = KillStepView;

    open spec fn view(&self) -> KillStepView {
        match *self {
            KillStep::Run(command) => KillStepView::Run(command@),
            KillStep::Sleep(millis) => KillStepView::Sleep(millis),
        }
    }
}

/// The steps of a list, as mathematical values.
pub open spec fn step_views(steps: Seq<KillStep>) -> Seq<KillStepView> {
    steps.map_values(|s: KillStep| s@)
}

/// What the caller saw of a command that it was told to run.
#[derive(Debug, Clone)]
pub struct CommandReport {
    /// Whether the command could be executed at all.
    pub ran: bool,
    /// Whether it ended with a status that means success.
    pub success: bool,
    /// What it wrote to standard output, decoded leniently.
    pub stdout: String,
    /// What it wrote to standard error, decoded leniently; where the command
    /// could not be executed, the reason.
    pub stderr: String,
}

/// `kill <signal> -<pid>`: the signal to the process group of `pid`.
pub open spec fn signal_group(signal: Seq<char>, pid: u32) -> CommandLineView {
    CommandLineView { program: "kill"@, args: seq![signal, "-"@ + decimal_text(pid as nat)] }
}

/// `kill <signal> <pid>`: the signal to the process `pid` alone.
pub open spec fn signal_process(signal: Seq<char>, pid: u32) -> CommandLineView {
    CommandLineView { program: "kill"@, args: seq![signal, decimal_text(pid as nat)] }
}

/// `pkill -KILL -P <pid>`: the kill signal to the children of `pid`.
pub open spec fn kill_children(pid: u32) -> CommandLineView {
    CommandLineView { program: "pkill"@, args: seq!["-KILL"@, "-P"@, decimal_text(pid as nat)] }
}

/// `taskkill /F /T /PID <pid>`: the forceful kill of the tree of `pid`.
pub open spec fn tree_kill(pid: u32) -> CommandLineView {
    CommandLineView {
        program: "taskkill"@,
        args: seq!["/F"@, "/T"@, "/PID"@, decimal_text(pid as nat)],
    }
}

/// `tasklist /FI "PID eq <pid>" /NH`: the listing of the process `pid`.
pub open spec fn task_listing(pid: u32) -> CommandLineView {
    CommandLineView {
        program: "tasklist"@,
        args: seq!["/FI"@, "PID eq "@ + decimal_text(pid as nat), "/NH"@],
    }
}

/// `wmic process where ParentProcessId=<pid> delete`: the removal of the
/// children of `pid`.
pub open spec fn delete_children(pid: u32) -> CommandLineView {
    CommandLineView {
        program: "wmic"@,
        args: seq![
            "process"@,
            "where"@,
            "ParentProcessId="@ + decimal_text(pid as nat),
            "delete"@,
        ],
    }
}

/// The steps of a basic kill of `pid`: with process groups, the termination
/// signal to the group, a pause, the kill signal to the group; without, one
/// forceful tree kill.
pub open spec fn basic_kill_steps(platform: Platform, pid: u32) -> Seq<KillStepView> {
    if platform.has_process_groups() {
        seq![
            KillStepView::Run(signal_group("-TERM"@, pid)),
            KillStepView::Sleep(SETTLE_MS),
            KillStepView::Run(signal_group("-KILL"@, pid)),
        ]
    } else {
        seq![KillStepView::Run(tree_kill(pid))]
    }
}

/// The first steps of a robust kill of `pid`: the termination signal to the
/// group, or the forceful tree kill. The report of this command is the one
/// that `robust_kill_verdict` judges.
pub open spec fn opening_steps(platform: Platform, pid: u32) -> Seq<KillStepView> {
    if platform.has_process_groups() {
        seq![KillStepView::Run(signal_group("-TERM"@, pid))]
    } else {
        seq![KillStepView::Run(tree_kill(pid))]
    }
}

/// The steps of a robust kill that find out whether `pid` is still there: a
/// pause, then the probe.
pub open spec fn probing_steps(platform: Platform, pid: u32) -> Seq<KillStepView> {
    if platform.has_process_groups() {
        seq![KillStepView::Sleep(SETTLE_MS), KillStepView::Run(signal_process("-0"@, pid))]
    } else {
        seq![KillStepView::Sleep(SETTLE_MS), KillStepView::Run(task_listing(pid))]
    }
}

/// The steps of a robust kill that make the second attempt on `pid`.
pub open spec fn retry_steps(platform: Platform, pid: u32) -> Seq<KillStepView> {
    if platform.has_process_groups() {
        seq![
            KillStepView::Run(signal_group("-KILL"@, pid)),
            KillStepView::Run(signal_process("-KILL"@, pid)),
            KillStepView::Sleep(SETTLE_MS),
        ]
    } else {
        seq![
            KillStepView::Sleep(RETRY_DELAY_MS),
            KillStepView::Run(tree_kill(pid)),
            KillStepView::Sleep(SETTLE_MS),
        ]
    }
}

/// The last step of a robust kill: the sweep for children of `pid` that are
/// left.
pub open spec fn sweep_steps(platform: Platform, pid: u32) -> Seq<KillStepView> {
    if platform.has_process_groups() {
        seq![KillStepView::Run(kill_children(pid))]
    } else {
        seq![KillStepView::Run(delete_children(pid))]
    }
}

/// The steps that close a robust kill: the second attempt if the process is
/// still alive, then the sweep.
pub open spec fn closing_steps(platform: Platform, pid: u32, alive: bool) -> Seq<KillStepView> {
    if alive {
        retry_steps(platform, pid) + sweep_steps(platform, pid)
    } else {
        sweep_steps(platform, pid)
    }
}

/// Whether the probe's report says that `pid` is still there: with process
/// groups, the probe succeeded; without, the listing names the process id.
pub open spec fn spec_still_alive(
    platform: Platform,
    pid: u32,
    ran: bool,
    success: bool,
    stdout: Seq<char>,
) -> bool {
    if platform.has_process_groups() {
        ran && success
    } else {
        ran && spec_contains(stdout, decimal_text(pid as nat))
    }
}

/// Whether the opening command's report is a failure of the kill. With
/// process groups nothing is; without, a tree kill that could not be
/// executed is, and so is one that ended badly for another reason than that
/// the process was gone already.
pub open spec fn spec_kill_failed(
    platform: Platform,
    ran: bool,
    success: bool,
    stderr: Seq<char>,
) -> bool {
    !platform.has_process_groups() && (!ran || (!success && !spec_contains(
        stderr,
        "not found"@,
    ) && !spec_contains(stderr, "No tasks"@)))
}

/// The reason that a failed robust kill gives.
pub open spec fn kill_failure_text(ran: bool, stderr: Seq<char>) -> Seq<char> {
    if ran {
        "taskkill failed: "@ + stderr
    } else {
        "Failed to execute taskkill: "@ + stderr
    }
}

fn command(program: &str, args: Vec<String>) -> (line: CommandLine)
    ensures
        line@ == (CommandLineView { program: program@, args: texts(args@) }),
{
    CommandLine { program: program.to_owned(), args }
}

fn run_signal_group(signal: &str, pid: u32) -> (step: KillStep)
    ensures
        step@ == KillStepView::Run(signal_group(signal@, pid)),
{
    let mut args: Vec<String> = Vec::new();
    args.push(signal.to_owned());
    args.push(concat("-", decimal(pid).as_str()));
    assert(texts(args@) =~= seq![signal@, "-"@ + decimal_text(pid as nat)]);
    KillStep::Run(command("kill", args))
}

fn run_signal_process(signal: &str, pid: u32) -> (step: KillStep)
    ensures
        step@ == KillStepView::Run(signal_process(signal@, pid)),
{
    let mut args: Vec<String> = Vec::new();
    args.push(signal.to_owned());
    args.push(decimal(pid));
    assert(texts(args@) =~= seq![signal@, decimal_text(pid as nat)]);
    KillStep::Run(command("kill", args))
}

fn run_kill_children(pid: u32) -> (step: KillStep)
    ensures
        step@ == KillStepView::Run(kill_children(pid)),
{
    let mut args: Vec<String> = Vec::new();
    args.push("-KILL".to_owned());
    args.push("-P".to_owned());
    args.push(decimal(pid));
    assert(texts(args@) =~= seq!["-KILL"@, "-P"@, decimal_text(pid as nat)]);
    KillStep::Run(command("pkill", args))
}

fn run_tree_kill(pid: u32) -> (step: KillStep)
    ensures
        step@ == KillStepView::Run(tree_kill(pid)),
{
    let mut args: Vec<String> = Vec::new();
    args.push("/F".to_owned());
    args.push("/T".to_owned());
    args.push("/PID".to_owned());
    args.push(decimal(pid));
    assert(texts(args@) =~= seq!["/F"@, "/T"@, "/PID"@, decimal_text(pid as nat)]);
    KillStep::Run(command("taskkill", args))
}

fn run_task_listing(pid: u32) -> (step: KillStep)
    ensures
        step@ == KillStepView::Run(task_listing(pid)),
{
    let mut args: Vec<String> = Vec::new();
    args.push("/FI".to_owned());
    args.push(concat("PID eq ", decimal(pid).as_str()));
    args.push("/NH".to_owned());
    assert(texts(args@) =~= seq!["/FI"@, "PID eq "@ + decimal_text(pid as nat), "/NH"@]);
    KillStep::Run(command("tasklist", args))
}

fn run_delete_children(pid: u32) -> (step: KillStep)
    ensures
        step@ == KillStepView::Run(delete_children(pid)),
{
    let mut args: Vec<String> = Vec::new();
    args.push("process".to_owned());
    args.push("where".to_owned());
    args.push(concat("ParentProcessId=", decimal(pid).as_str()));
    args.push("delete".to_owned());
    assert(texts(args@) =~= seq![
        "process"@,
        "where"@,
        "ParentProcessId="@ + decimal_text(pid as nat),
        "delete"@,
    ]);
    KillStep::Run(command("wmic", args))
}

/// The basic kill of the process `pid` and its descendants: the steps to
/// perform, in order. What the commands report is ignored.
pub fn kill_process_tree(platform: Platform, pid: u32) -> (steps: Vec<KillStep>)
    ensures
        step_views(steps@) == basic_kill_steps(platform, pid),
{
    let mut steps: Vec<KillStep> = Vec::new();
    if platform.has_process_groups() {
        steps.push(run_signal_group("-TERM", pid));
        steps.push(KillStep::Sleep(SETTLE_MS));
        steps.push(run_signal_group("-KILL", pid));
    } else {
        steps.push(run_tree_kill(pid));
    }
    assert(step_views(steps@) =~= basic_kill_steps(platform, pid));
    steps
}

/// The first steps of a robust kill of `pid`.
pub fn robust_kill_opening(platform: Platform, pid: u32) -> (steps: Vec<KillStep>)
    ensures
        step_views(steps@) == opening_steps(platform, pid),
{
    let mut steps: Vec<KillStep> = Vec::new();
    if platform.has_process_groups() {
        steps.push(run_signal_group("-TERM", pid));
    } else {
        steps.push(run_tree_kill(pid));
    }
    assert(step_views(steps@) =~= opening_steps(platform, pid));
    steps
}

/// The steps of a robust kill that find out whether `pid` is still there.
pub fn robust_kill_probing(platform: Platform, pid: u32) -> (steps: Vec<KillStep>)
    ensures
        step_views(steps@) == probing_steps(platform, pid),
{
    let mut steps: Vec<KillStep> = Vec::new();
    steps.push(KillStep::Sleep(SETTLE_MS));
    if platform.has_process_groups() {
        steps.push(run_signal_process("-0", pid));
    } else {
        steps.push(run_task_listing(pid));
    }
    assert(step_views(steps@) =~= probing_steps(platform, pid));
    steps
}

/// Whether the probe's report says that `pid` is still there.
pub fn still_alive(platform: Platform, pid: u32, probe: &CommandReport) -> (alive: bool)
    ensures
        alive == spec_still_alive(platform, pid, probe.ran, probe.success, probe.stdout@),
{
    if !probe.ran {
        return false;
    }
    if platform.has_process_groups() {
        probe.success
    } else {
        contains(probe.stdout.as_str(), decimal(pid).as_str())
    }
}

/// The steps that close a robust kill of `pid`, given whether the probe
/// found it alive.
pub fn robust_kill_closing(platform: Platform, pid: u32, alive: bool) -> (steps: Vec<KillStep>)
    ensures
        step_views(steps@) == closing_steps(platform, pid, alive),
{
    let mut steps: Vec<KillStep> = Vec::new();
    if alive {
        if platform.has_process_groups() {
            steps.push(run_signal_group("-KILL", pid));
            steps.push(run_signal_process("-KILL", pid));
            steps.push(KillStep::Sleep(SETTLE_MS));
        } else {
            steps.push(KillStep::Sleep(RETRY_DELAY_MS));
            steps.push(run_tree_kill(pid));
            steps.push(KillStep::Sleep(SETTLE_MS));
        }
    }
    if platform.has_process_groups() {
        steps.push(run_kill_children(pid));
    } else {
        steps.push(run_delete_children(pid));
    }
    assert(step_views(steps@) =~= closing_steps(platform, pid, alive));
    steps
}

/// What a robust kill comes to, judged by the report of its opening
/// command. A process that was gone already is no failure.
pub fn robust_kill_verdict(platform: Platform, opening: &CommandReport) -> (verdict: Result<
    (),
    ProcessError,
>)
    ensures
        verdict is Err <==> spec_kill_failed(
            platform,
            opening.ran,
            opening.success,
            opening.stderr@,
        ),
        verdict is Err ==> verdict->Err_0@ == ProcessErrorView::KillFailed(
            kill_failure_text(opening.ran, opening.stderr@),
        ),
{
    if platform.has_process_groups() {
        return Ok(());
    }
    if !opening.ran {
        return Err(
            ProcessError::KillFailed(concat("Failed to execute taskkill: ", opening.stderr.as_str())),
        );
    }
    if !opening.success && !contains(opening.stderr.as_str(), "not found") && !contains(
        opening.stderr.as_str(),
        "No tasks",
    ) {
        return Err(ProcessError::KillFailed(concat("taskkill failed: ", opening.stderr.as_str())));
    }
    Ok(())
}

/// A `CommandReport` as a mathematical value.
pub struct ReportView {
    pub ran: bool,
    pub success: bool,
    pub stdout: Seq<char>,
    pub stderr: Seq<char>,
}

impl View for CommandReport {
    type V = ReportView;

    open spec fn view(&self) -> ReportView {
        ReportView {
            ran: self.ran,
            success: self.success,
            stdout: self.stdout@,
            stderr: self.stderr@,
        }
    }
}

impl ReportView {
    /// The report of a command that was never executed.
    pub open spec fn missing() -> ReportView {
        ReportView { ran: false, success: false, stdout: Seq::empty(), stderr: Seq::empty() }
    }

    /// The report that an optional report stands for.
    pub open spec fn of(report: Option<CommandReport>) -> ReportView {
        match report {
            Some(r) => r@,
            None => ReportView::missing(),
        }
    }

    /// Whether this report, as that of a probe, says that `pid` is there.
    pub open spec fn shows_alive(self, platform: Platform, pid: u32) -> bool {
        spec_still_alive(platform, pid, self.ran, self.success, self.stdout)
    }

    /// Whether this report, as that of the opening command, is a failure.
    pub open spec fn is_failure(self, platform: Platform) -> bool {
        spec_kill_failed(platform, self.ran, self.success, self.stderr)
    }

    /// What a robust kill comes to when this is the report of its opening
    /// command.
    pub open spec fn verdict(self, platform: Platform) -> Result<(), ProcessErrorView> {
        if self.is_failure(platform) {
            Err(ProcessErrorView::KillFailed(kill_failure_text(self.ran, self.stderr)))
        } else {
            Ok(())
        }
    }
}

impl CommandReport {
    /// The report of a command that was never executed.
    pub fn missing() -> (report: CommandReport)
        ensures
            report@ == ReportView::missing(),
    {
        CommandReport { ran: false, success: false, stdout: String::new(), stderr: String::new() }
    }
}

/// Where a robust kill stands.
#[derive(Clone, Copy, Debug, PartialEq, Eq, Structural)]
pub enum RobustStage {
    /// Nothing was done yet.
    Opening,
    /// The opening command was run; its report is awaited.
    Probing,
    /// The probe was run; its report is awaited.
    Closing,
    /// All steps were handed out.
    Finished,
}

/// What a robust kill asks of its caller next.
#[derive(Debug)]
pub enum KillDirective {
    /// Perform these steps in order, then come back with the report of the
    /// last command among them.
    Execute(Vec<KillStep>),
    /// The kill is over, with this result. A failure is to be logged, not
    /// passed on.
    Finished(Result<(), ProcessError>),
}

/// A `KillDirective` as a mathematical value.
pub enum DirectiveView {
    Execute(Seq<KillStepView>),
    Finished(Result<(), ProcessErrorView>),
}

impl View for KillDirective {
    type V = DirectiveView;

    open spec fn view(&self) -> DirectiveView {
        match *self {
            KillDirective::Execute(steps) => DirectiveView::Execute(step_views(steps@)),
            KillDirective::Finished(Ok(())) => DirectiveView::Finished(Ok(())),
            KillDirective::Finished(Err(e)) => DirectiveView::Finished(Err(e@)),
        }
    }
}

/// The robust kill of one process tree, step by step.
#[derive(Debug)]
pub struct RobustKill {
    platform: Platform,
    pid: u32,
    stage: RobustStage,
    opening: Option<CommandReport>,
}

/// A `RobustKill` as a mathematical value.
pub struct RobustKillView {
    pub platform: Platform,
    pub pid: u32,
    pub stage: RobustStage,
    /// The report of the opening command, once it is known.
    pub opening: ReportView,
}

impl RobustKillView {
    /// A robust kill of `pid` that has not begun.
    pub open spec fn start(platform: Platform, pid: u32) -> RobustKillView {
        RobustKillView { platform, pid, stage: RobustStage::Opening, opening: ReportView::missing() }
    }

    /// Whether the kill ends right after its opening command: where the
    /// tree-kill utility could not be executed at all.
    pub open spec fn gives_up(self, opening: ReportView) -> bool {
        !self.platform.has_process_groups() && !opening.ran
    }

    /// The state after one more round, given the report of the last command
    /// of the round before.
    pub open spec fn next(self, report: ReportView) -> RobustKillView {
        match self.stage {
            RobustStage::Opening => RobustKillView { stage: RobustStage::Probing, ..self },
            RobustStage::Probing => if self.gives_up(report) {
                RobustKillView { stage: RobustStage::Finished, opening: report, ..self }
            } else {
                RobustKillView { stage: RobustStage::Closing, opening: report, ..self }
            },
            RobustStage::Closing => RobustKillView { stage: RobustStage::Finished, ..self },
            RobustStage::Finished => self,
        }
    }

    /// What the caller is asked to do in this round, given the report of the
    /// last command of the round before.
    pub open spec fn directive(self, report: ReportView) -> DirectiveView {
        match self.stage {
            RobustStage::Opening => DirectiveView::Execute(opening_steps(self.platform, self.pid)),
            RobustStage::Probing => if self.gives_up(report) {
                DirectiveView::Finished(report.verdict(self.platform))
            } else {
                DirectiveView::Execute(probing_steps(self.platform, self.pid))
            },
            RobustStage::Closing => DirectiveView::Execute(
                closing_steps(self.platform, self.pid, report.shows_alive(self.platform, self.pid)),
            ),
            RobustStage::Finished => DirectiveView::Finished(self.opening.verdict(self.platform)),
        }
    }
}

impl View for RobustKill {
    type V = RobustKillView;

    closed spec fn view(&self) -> RobustKillView {
        RobustKillView {
            platform: self.platform,
            pid: self.pid,
            stage: self.stage,
            opening: ReportView::of(self.opening),
        }
    }
}

/// The robust kill of the process `pid` and its descendants, not yet begun.
pub fn kill_process_tree_robust(platform: Platform, pid: u32) -> (kill: RobustKill)
    ensures
        kill@ == RobustKillView::start(platform, pid),
{
    RobustKill { platform, pid, stage: RobustStage::Opening, opening: None }
}

impl RobustKill {
    /// Where the kill stands.
    pub fn stage(&self) -> (stage: RobustStage)
        ensures
            stage == self@.stage,
    {
        self.stage
    }

    /// The process id that the kill is after.
    pub fn pid(&self) -> (pid: u32)
        ensures
            pid == self@.pid,
    {
        self.pid
    }

    /// One round of the kill. `report` is what the last command of the round
    /// before reported; in the first round, and where no command could be
    /// observed, it is `None`, which counts as a command never executed.
    pub fn advance(&mut self, report: Option<CommandReport>) -> (directive: KillDirective)
        ensures
            final(self)@ == old(self)@.next(ReportView::of(report)),
            directive@ == old(self)@.directive(ReportView::of(report)),
    {
        match self.stage {
            RobustStage::Opening => {
                self.stage = RobustStage::Probing;
                KillDirective::Execute(robust_kill_opening(self.platform, self.pid))
            },
            RobustStage::Probing => {
                let opening = match report {
                    Some(r) => r,
                    None => CommandReport::missing(),
                };
                if !self.platform.has_process_groups() && !opening.ran {
                    let verdict = robust_kill_verdict(self.platform, &opening);
                    self.stage = RobustStage::Finished;
                    self.opening = Some(opening);
                    KillDirective::Finished(verdict)
                } else {
                    self.stage = RobustStage::Closing;
                    self.opening = Some(opening);
                    KillDirective::Execute(robust_kill_probing(self.platform, self.pid))
                }
            },
            RobustStage::Closing => {
                let alive = match &report {
                    Some(r) => still_alive(self.platform, self.pid, r),
                    None => false,
                };
                self.stage = RobustStage::Finished;
                KillDirective::Execute(robust_kill_closing(self.platform, self.pid, alive))
            },
            RobustStage::Finished => {
                let verdict = match &self.opening {
                    Some(r) => robust_kill_verdict(self.platform, r),
                    None => {
                        let none = CommandReport::missing();
                        robust_kill_verdict(self.platform, &none)
                    },
                };
                KillDirective::Finished(verdict)
            },
        }
    }
}

/// All the steps of a robust kill of `pid`, given what its opening command
/// and its probe report.
pub open spec fn robust_kill_steps(
    platform: Platform,
    pid: u32,
    opening: ReportView,
    probe: ReportView,
) -> Seq<KillStepView> {
    if !platform.has_process_groups() && !opening.ran {
        opening_steps(platform, pid)
    } else {
        opening_steps(platform, pid) + probing_steps(platform, pid) + closing_steps(
            platform,
            pid,
            probe.shows_alive(platform, pid),
        )
    }
}

/// The steps that `directive` asks for; none where it ends the kill.
pub open spec fn directive_steps(directive: DirectiveView) -> Seq<KillStepView> {
    match directive {
        DirectiveView::Execute(steps) => steps,
        DirectiveView::Finished(_) => Seq::empty(),
    }
}

/// A robust kill hands out exactly the steps of `robust_kill_steps`, in at
/// most three rounds, and then ends with the verdict on the report of its
/// opening command. With process groups that verdict is always success.
pub proof fn lemma_robust_kill_runs_its_steps(
    platform: Platform,
    pid: u32,
    opening: ReportView,
    probe: ReportView,
)
    ensures
        ({
            let s0 = RobustKillView::start(platform, pid);
            let s1 = s0.next(ReportView::missing());
            let s2 = s1.next(opening);
            let s3 = s2.next(probe);
            &&& directive_steps(s0.directive(ReportView::missing())) + directive_steps(
                s1.directive(opening),
            ) + directive_steps(s2.directive(probe)) == robust_kill_steps(
                platform,
                pid,
                opening,
                probe,
            )
            &&& s3.stage == RobustStage::Finished
            &&& s3.directive(ReportView::missing()) == DirectiveView::Finished(
                opening.verdict(platform),
            )
            &&& s3.next(ReportView::missing()) == s3
            &&& platform.has_process_groups() ==> opening.verdict(platform) is Ok
        }),
{
    let s0 = RobustKillView::start(platform, pid);
    let s1 = s0.next(ReportView::missing());
    let s2 = s1.next(opening);
    let total = directive_steps(s0.directive(ReportView::missing())) + directive_steps(
        s1.directive(opening),
    ) + directive_steps(s2.directive(probe));
    if s1.gives_up(opening) {
        assert(s2.stage == RobustStage::Finished);
        assert(total =~= robust_kill_steps(platform, pid, opening, probe));
    } else {
        assert(total =~= robust_kill_steps(platform, pid, opening, probe));
    }
}

} // verus!
