//! Dependency installer: the pipeline that makes sure that the system
//! package manager and two packages are present.
//!
//! The pipeline is strictly sequential: the package manager first, then
//! the first package, then the second. Each is probed; what is missing is
//! installed through an elevated shell, waited for, and probed again. The
//! first failure ends the run. The installer runs nothing itself: it
//! names the events to emit and the one operation to perform, and takes
//! the report of that operation.

use vstd::prelude::*;
use vstd::string::*;

use crate::process::ProcessReport;
use crate::progress::{
    emit_error,
    emit_progress,
    events_view,
    failure_event,
    no_events,
    one_event,
    step_event,
    Progress,
    ProgressView,
};
use crate::text::{concat2, concat3};

verus! {

/// What the pipeline takes care of, in order.
#[derive(Debug, Clone, Copy, PartialEq, Eq, Structural)]
pub enum Item {
    /// The system package manager.
    Manager,
    /// The first package.
    First,
    /// The second package.
    Second,
}

/// What the pipeline waits for.
#[derive(Debug, Clone, Copy, PartialEq, Eq, Structural)]
pub enum InstallStage {
    /// The first probe of the item.
    Probe,
    /// The launch of the item's installation.
    Launch,
    /// The end of the fixed wait after the launch.
    Wait,
    /// The probe after the wait.
    Reprobe,
    /// Every item is present.
    Done,
    /// An installation failed.
    Failed,
}

/// A package: the name under which it is installed and run, and the flag
/// that makes it print its version.
#[derive(Debug, Clone, PartialEq, Eq)]
pub struct Package {
    /// Name of the package and of its program.
    pub name: String,
    /// Flag of the version probe.
    pub check_flag: String,
}

/// A package, with its strings as text.
pub struct PackageView {
    pub name: Seq<char>,
    pub check_flag: Seq<char>,
}

impl View for Package {
    type V = PackageView;

    open spec fn view(&self) -> PackageView {
        PackageView { name: self.name@, check_flag: self.check_flag@ }
    }
}

/// Display name of the package manager.
pub const MANAGER_NAME: &'static str = "Chocolatey";

/// Program of the package manager.
pub const MANAGER_PROGRAM: &'static str = "choco";

/// Flag of the package manager's version probe.
pub const MANAGER_FLAG: &'static str = "--version";

/// The shell that runs an installation.
pub const SHELL_PROGRAM: &'static str = "powershell";

/// The flag after which the shell takes its command.
pub const SHELL_FLAG: &'static str = "-Command";

/// Shell command that installs the package manager, elevated.
pub const MANAGER_SCRIPT: &'static str =
    "Start-Process powershell -Verb RunAs -ArgumentList \"-Command Set-ExecutionPolicy Bypass -Scope Process -Force; [System.Net.ServicePointManager]::SecurityProtocol = [System.Net.ServicePointManager]::SecurityProtocol -bor 3072; iex ((New-Object System.Net.WebClient).DownloadString('https://community.chocolatey.org/install.ps1'))\"";

/// How the shell command that installs a package begins.
pub const PACKAGE_SCRIPT_HEAD: &'static str =
    "Start-Process powershell -Verb RunAs -ArgumentList \"-Command choco install ";

/// How the shell command that installs a package ends.
pub const PACKAGE_SCRIPT_TAIL: &'static str = " -y\"";

/// Seconds to wait for an elevated installation before probing again.
pub const INSTALL_WAIT_SECS: u64 = 60;

/// Share of one item in the whole, in hundredths of a percent.
pub const ITEM_SHARE: u32 = 3333;

/// What an installation failed with.
#[derive(Debug, Clone, PartialEq, Eq)]
pub struct InstallError {
    /// The step that failed.
    pub step: String,
    /// What went wrong, with the cause where one was reported.
    pub message: String,
}

/// The one operation that the caller performs after emitting the events.
#[derive(Debug, Clone, PartialEq, Eq)]
pub enum Operation {
    /// Run `program` with `arg` alone, and report whether it started.
    Probe { program: String, arg: String },
    /// Run `SHELL_PROGRAM` with `SHELL_FLAG` and `command`, and report
    /// whether it started.
    Launch { command: String },
    /// Sleep for `seconds`, then report.
    Wait { seconds: u64 },
    /// The run is over: everything is present.
    Succeed,
    /// The run is over: an installation failed.
    Fail { error: InstallError },
    /// The run was over before this report. Nothing to do.
    Stop,
}

/// An operation, with its strings as text.
pub enum OperationView {
    Probe { program: Seq<char>, arg: Seq<char> },
    Launch { command: Seq<char> },
    Wait { seconds: u64 },
    Succeed,
    Fail { step: Seq<char>, message: Seq<char> },
    Stop,
}

impl View for Operation {
    type V = OperationView;

    open spec fn view(&self) -> OperationView {
        match *self {
            Operation::Probe { program, arg } => OperationView::Probe {
                program: program@,
                arg: arg@,
            },
            Operation::Launch { command } => OperationView::Launch { command: command@ },
            Operation::Wait { seconds } => OperationView::Wait { seconds },
            Operation::Succeed => OperationView::Succeed,
            Operation::Fail { error } => OperationView::Fail {
                step: error.step@,
                message: error.message@,
            },
            Operation::Stop => OperationView::Stop,
        }
    }
}

/// What the caller does next: emit the events, in order, then perform
/// the operation.
#[derive(Debug, Clone, PartialEq, Eq)]
pub struct Directive {
    /// Events for the progress channel.
    pub events: Vec<Progress>,
    /// The operation to perform and report.
    pub operation: Operation,
}

/// A directive, with its strings as text.
pub struct DirectiveView {
    pub events: Seq<ProgressView>,
    pub operation: OperationView,
}

impl View for Directive {
    type V = DirectiveView;

    open spec fn view(&self) -> DirectiveView {
        DirectiveView {
            events: events_view(self.events@),
            operation: self.operation@,
        }
    }
}

/// A run of the installer, as the contracts see it.
pub struct InstallerView {
    /// What the run waits for.
    pub stage: InstallStage,
    /// The item that the run is at.
    pub item: Item,
    /// The first package.
    pub first: PackageView,
    /// The second package.
    pub second: PackageView,
}

/// Display name of an item.
pub open spec fn item_name(state: InstallerView, item: Item) -> Seq<char> {
    match item {
        Item::Manager => MANAGER_NAME@,
        Item::First => state.first.name,
        Item::Second => state.second.name,
    }
}

/// The probe of an item: its program with its version flag.
pub open spec fn item_probe(state: InstallerView, item: Item) -> OperationView {
    match item {
        Item::Manager => OperationView::Probe { program: MANAGER_PROGRAM@, arg: MANAGER_FLAG@ },
        Item::First => OperationView::Probe {
            program: state.first.name,
            arg: state.first.check_flag,
        },
        Item::Second => OperationView::Probe {
            program: state.second.name,
            arg: state.second.check_flag,
        },
    }
}

/// The shell command that installs an item.
pub open spec fn item_script(state: InstallerView, item: Item) -> Seq<char> {
    match item {
        Item::Manager => MANAGER_SCRIPT@,
        _ => PACKAGE_SCRIPT_HEAD@ + item_name(state, item) + PACKAGE_SCRIPT_TAIL@,
    }
}

/// The percentage at which an item begins, in hundredths of a percent.
pub open spec fn item_floor(item: Item) -> u32 {
    match item {
        Item::Manager => 0,
        Item::First => ITEM_SHARE,
        Item::Second => (2 * ITEM_SHARE) as u32,
    }
}

/// The percentage that an installed item ends at.
pub open spec fn item_ceiling(item: Item) -> u32 {
    (item_floor(item) + ITEM_SHARE) as u32
}

/// The time left when an item begins.
pub open spec fn item_eta(item: Item) -> Seq<char> {
    match item {
        Item::Manager => "2min"@,
        Item::First => "1min 12s"@,
        Item::Second => "30s"@,
    }
}

/// The time left when an item has been installed.
pub open spec fn installed_eta(item: Item) -> Seq<char> {
    match item {
        Item::Manager => "1min 12s"@,
        _ => "30s"@,
    }
}

/// The item after `item`, where there is one.
pub open spec fn next_item(item: Item) -> Option<Item> {
    match item {
        Item::Manager => Some(Item::First),
        Item::First => Some(Item::Second),
        Item::Second => None,
    }
}

/// The event of an item that was found present at its first probe.
pub open spec fn present_event(state: InstallerView, item: Item) -> ProgressView {
    step_event(
        item_name(state, item) + " is already installed"@,
        item_floor(item),
        item_eta(item),
    )
}

/// The event of an item whose installation begins.
pub open spec fn installing_event(state: InstallerView, item: Item) -> ProgressView {
    step_event("Installing "@ + item_name(state, item), item_floor(item), item_eta(item))
}

/// The event of an item that was found present after its installation.
pub open spec fn installed_event(state: InstallerView, item: Item) -> ProgressView {
    step_event(
        item_name(state, item) + " installed"@,
        item_ceiling(item),
        installed_eta(item),
    )
}

/// Name of the step that installs an item, as failures give it.
pub open spec fn install_step_name(state: InstallerView, item: Item) -> Seq<char> {
    item_name(state, item) + " installation"@
}

/// What is said of a launch that could not be started.
pub const LAUNCH_FAILED: &'static str = "Failed to execute installation process";

/// The cause that a report gives for a program that did not start; empty
/// for a report of a program that did.
pub open spec fn report_cause(report: ProcessReport) -> Seq<char> {
    match report {
        ProcessReport::SpawnFailed { cause } => cause@,
        ProcessReport::Exited { .. } => Seq::empty(),
    }
}

/// The state and directive with which the run turns to the item after
/// `item`, having emitted `events` for `item`: the probe of the next
/// item, or the end of the run.
pub open spec fn turn_to_next(state: InstallerView, item: Item, events: Seq<ProgressView>) -> (
    InstallerView,
    DirectiveView,
) {
    match next_item(item) {
        Some(next) => (
            InstallerView { stage: InstallStage::Probe, item: next, ..state },
            DirectiveView { events, operation: item_probe(state, next) },
        ),
        None => (
            InstallerView { stage: InstallStage::Done, ..state },
            DirectiveView { events, operation: OperationView::Succeed },
        ),
    }
}

/// What stands before the summary in the message of a launch that could
/// not be started: nothing for the package manager, and for a package the
/// words that name it as the one that could not be installed.
pub open spec fn launch_failure_head(state: InstallerView, item: Item) -> Seq<char> {
    match item {
        Item::Manager => Seq::empty(),
        _ => "Failed to install "@ + item_name(state, item) + ": "@,
    }
}

/// The state and directive with which the run fails at `item`: the
/// failure event carries `summary`, and the error's message is `head`,
/// `summary`, a colon and the reported `cause`.
pub open spec fn fail_with(
    state: InstallerView,
    item: Item,
    head: Seq<char>,
    summary: Seq<char>,
    cause: Seq<char>,
) -> (InstallerView, DirectiveView) {
    (
        InstallerView { stage: InstallStage::Failed, ..state },
        DirectiveView {
            events: seq![failure_event(install_step_name(state, item), summary)],
            operation: OperationView::Fail {
                step: install_step_name(state, item),
                message: head + summary + ": "@ + cause,
            },
        },
    )
}

/// The state that a run begins in.
pub open spec fn first_install_state(first: PackageView, second: PackageView) -> InstallerView {
    InstallerView { stage: InstallStage::Probe, item: Item::Manager, first, second }
}

/// The directive that a run begins with: the probe of the package
/// manager, and no event.
pub open spec fn first_directive(first: PackageView, second: PackageView) -> DirectiveView {
    DirectiveView {
        events: Seq::empty(),
        operation: item_probe(first_install_state(first, second), Item::Manager),
    }
}

/// The state and directive that follow a report.
///
/// An item that starts at its first probe is present: the run says so
/// and turns to the next. One that does not is installed: the launch of
/// the installation, the wait, and a second probe follow one another,
/// and only a second probe that starts counts as success. A launch or a
/// second probe that does not start ends the run.
pub open spec fn install_step(state: InstallerView, report: ProcessReport) -> (
    InstallerView,
    DirectiveView,
) {
    let item = state.item;
    match state.stage {
        InstallStage::Probe => if report.started() {
            turn_to_next(state, item, seq![present_event(state, item)])
        } else {
            (
                InstallerView { stage: InstallStage::Launch, ..state },
                DirectiveView {
                    events: seq![installing_event(state, item)],
                    operation: OperationView::Launch { command: item_script(state, item) },
                },
            )
        },
        InstallStage::Launch => if report.started() {
            (
                InstallerView { stage: InstallStage::Wait, ..state },
                DirectiveView {
                    events: Seq::empty(),
                    operation: OperationView::Wait { seconds: INSTALL_WAIT_SECS },
                },
            )
        } else {
            fail_with(
                state,
                item,
                launch_failure_head(state, item),
                LAUNCH_FAILED@,
                report_cause(report),
            )
        },
        InstallStage::Wait => (
            InstallerView { stage: InstallStage::Reprobe, ..state },
            DirectiveView { events: Seq::empty(), operation: item_probe(state, item) },
        ),
        InstallStage::Reprobe => if report.started() {
            turn_to_next(state, item, seq![installed_event(state, item)])
        } else {
            fail_with(
                state,
                item,
                Seq::empty(),
                "Failed to install "@ + item_name(state, item),
                report_cause(report),
            )
        },
        InstallStage::Done => (
            state,
            DirectiveView { events: Seq::empty(), operation: OperationView::Stop },
        ),
        InstallStage::Failed => (
            state,
            DirectiveView { events: Seq::empty(), operation: OperationView::Stop },
        ),
    }
}

/// An item that starts at its first probe is not installed: the run
/// reports it as already installed and goes on to a probe or to its end,
/// never to a launch.
pub proof fn lemma_present_item_is_not_installed(state: InstallerView, report: ProcessReport)
    requires
        state.stage == InstallStage::Probe,
        report.started(),
    ensures
        install_step(state, report).1.events == seq![present_event(state, state.item)],
        !(install_step(state, report).1.operation is Launch),
        !(install_step(state, report).1.operation is Wait),
        !(install_step(state, report).1.operation is Fail),
{
}

/// Running the pipeline when the package manager and both packages are
/// already in place installs nothing: the three probes follow one
/// another, both packages are reported as already installed, and the run
/// ends in success. The pipeline keeps nothing between runs, so this
/// holds of a second run as of a first.
pub proof fn lemma_nothing_installed_when_all_present(
    first: PackageView,
    second: PackageView,
    manager_probe: ProcessReport,
    first_probe: ProcessReport,
    second_probe: ProcessReport,
)
    requires
        manager_probe.started(),
        first_probe.started(),
        second_probe.started(),
    ensures
        ({
            let begin = first_install_state(first, second);
            let (after_manager, to_first) = install_step(begin, manager_probe);
            let (after_first, to_second) = install_step(after_manager, first_probe);
            let (after_second, to_end) = install_step(after_first, second_probe);
            &&& to_first.operation == item_probe(begin, Item::First)
            &&& to_second.events == seq![present_event(begin, Item::First)]
            &&& to_second.operation == item_probe(begin, Item::Second)
            &&& to_end.events == seq![present_event(begin, Item::Second)]
            &&& to_end.operation == OperationView::Succeed
            &&& after_second.stage == InstallStage::Done
        }),
{
}

/// A failure ends the run: after a launch or a second probe that did not
/// start, the run is over, one failure event was emitted, and no later
/// report brings it back.
pub proof fn lemma_failure_ends_install(state: InstallerView, report: ProcessReport, later: ProcessReport)
    requires
        state.stage == InstallStage::Launch || state.stage == InstallStage::Reprobe,
        !report.started(),
    ensures
        install_step(state, report).0.stage == InstallStage::Failed,
        install_step(state, report).1.operation is Fail,
        install_step(state, report).1.events.len() == 1,
        install_step(state, report).1.events[0].error is Some,
        install_step(install_step(state, report).0, later) == (
            install_step(state, report).0,
            DirectiveView { events: Seq::empty(), operation: OperationView::Stop },
        ),
{
}

/// A package whose installation could not be launched is named in the
/// error: the message says that the package could not be installed,
/// then that the installation process could not be executed, then the
/// reported cause. Nothing is reported as installed.
pub proof fn lemma_package_launch_failure(state: InstallerView, report: ProcessReport)
    requires
        state.stage == InstallStage::Launch,
        state.item != Item::Manager,
        !report.started(),
    ensures
        install_step(state, report).1.operation == (OperationView::Fail {
            step: item_name(state, state.item) + " installation"@,
            message: "Failed to install "@ + item_name(state, state.item) + ": "@ + LAUNCH_FAILED@
                + ": "@ + report_cause(report),
        }),
        install_step(state, report).1.events == seq![
            failure_event(item_name(state, state.item) + " installation"@, LAUNCH_FAILED@),
        ],
        install_step(state, report).0.stage == InstallStage::Failed,
{
}

/// The percentage below which no later event of a run falls.
pub open spec fn progress_mark(state: InstallerView) -> u32 {
    match state.stage {
        InstallStage::Done => (3 * ITEM_SHARE) as u32,
        _ => item_floor(state.item),
    }
}

/// One step never lets the percentage fall: every event of the step that
/// reports no failure lies between the mark before the step and the mark
/// after it, and the mark stays within the whole.
pub proof fn lemma_step_percentages(state: InstallerView, report: ProcessReport)
    ensures
        progress_mark(state) <= progress_mark(install_step(state, report).0) <= 10000,
        forall|i: int|
            0 <= i < install_step(state, report).1.events.len() && (#[trigger] install_step(
                state,
                report,
            ).1.events[i]).error is None ==> progress_mark(state) <= install_step(
                state,
                report,
            ).1.events[i].percentage <= progress_mark(install_step(state, report).0),
{
}

/// The events of a run that takes `reports` one after the other.
pub open spec fn run_events(state: InstallerView, reports: Seq<ProcessReport>) -> Seq<ProgressView>
    decreases reports.len(),
{
    if reports.len() == 0 {
        Seq::empty()
    } else {
        install_step(state, reports[0]).1.events + run_events(
            install_step(state, reports[0]).0,
            reports.drop_first(),
        )
    }
}

/// No event of a run that reports no failure falls below the mark of the
/// state that the run began in, and none exceeds the whole.
pub proof fn lemma_run_above_mark(state: InstallerView, reports: Seq<ProcessReport>, i: int)
    requires
        0 <= i < run_events(state, reports).len(),
        run_events(state, reports)[i].error is None,
    ensures
        progress_mark(state) <= run_events(state, reports)[i].percentage <= 10000,
    decreases reports.len(),
{
    let step = install_step(state, reports[0]);
    lemma_step_percentages(state, reports[0]);
    if i < step.1.events.len() {
        assert(run_events(state, reports)[i] == step.1.events[i]);
    } else {
        assert(run_events(state, reports)[i] == run_events(step.0, reports.drop_first())[i
            - step.1.events.len()]);
        lemma_run_above_mark(step.0, reports.drop_first(), i - step.1.events.len());
    }
}

/// Across a whole run the percentage never falls: of two events that
/// report no failure, the later carries a percentage that is at least
/// that of the earlier, and both lie between zero and a hundred percent.
pub proof fn lemma_percentage_never_falls(
    state: InstallerView,
    reports: Seq<ProcessReport>,
    i: int,
    j: int,
)
    requires
        0 <= i <= j < run_events(state, reports).len(),
        run_events(state, reports)[i].error is None,
        run_events(state, reports)[j].error is None,
    ensures
        run_events(state, reports)[i].percentage <= run_events(state, reports)[j].percentage
            <= 10000,
    decreases reports.len(),
{
    let step = install_step(state, reports[0]);
    let rest = run_events(step.0, reports.drop_first());
    let here = step.1.events.len();
    lemma_step_percentages(state, reports[0]);
    lemma_run_above_mark(state, reports, j);
    if j < here {
        assert(run_events(state, reports)[i] == step.1.events[i]);
        assert(run_events(state, reports)[j] == step.1.events[j]);
        assert(here <= 1);
    } else if i < here {
        assert(run_events(state, reports)[i] == step.1.events[i]);
        assert(run_events(state, reports)[j] == rest[j - here]);
        lemma_run_above_mark(step.0, reports.drop_first(), j - here);
    } else {
        assert(run_events(state, reports)[i] == rest[i - here]);
        assert(run_events(state, reports)[j] == rest[j - here]);
        lemma_percentage_never_falls(step.0, reports.drop_first(), i - here, j - here);
    }
}

/// The percentage at which an item begins.
fn floor_of(item: Item) -> (floor: u32)
    ensures
        floor == item_floor(item),
{
    match item {
        Item::Manager => 0,
        Item::First => ITEM_SHARE,
        Item::Second => 2 * ITEM_SHARE,
    }
}

/// The time left when an item begins.
fn eta_of(item: Item) -> (eta: &'static str)
    ensures
        eta@ == item_eta(item),
{
    match item {
        Item::Manager => "2min",
        Item::First => "1min 12s",
        Item::Second => "30s",
    }
}

/// The time left when an item has been installed.
fn installed_eta_of(item: Item) -> (eta: &'static str)
    ensures
        eta@ == installed_eta(item),
{
    match item {
        Item::Manager => "1min 12s",
        _ => "30s",
    }
}

/// The cause that a report gives for a program that did not start.
fn cause_of(report: &ProcessReport) -> (cause: String)
    ensures
        cause@ == report_cause(*report),
{
    match report {
        ProcessReport::SpawnFailed { cause } => cause.clone(),
        ProcessReport::Exited { .. } => String::new(),
    }
}

/// One run of the installer.
pub struct Installer {
    stage: InstallStage,
    item: Item,
    first: Package,
    second: Package,
}

impl View for Installer {
    type V = InstallerView;

    closed spec fn view(&self) -> InstallerView {
        InstallerView {
            stage: self.stage,
            item: self.item,
            first: self.first@,
            second: self.second@,
        }
    }
}

impl Installer {
    /// Begins a run for the two packages: the run's state and the first
    /// directive, which probes the package manager.
    pub fn start(first: Package, second: Package) -> (run: (Installer, Directive))
        ensures
            run.0@ == first_install_state(first@, second@),
            run.1@ == first_directive(first@, second@),
    {
        let installer = Installer { stage: InstallStage::Probe, item: Item::Manager, first, second };
        let operation = installer.probe_of(Item::Manager);
        (installer, Directive { events: no_events(), operation })
    }

    /// What the run waits for.
    pub fn stage(&self) -> (stage: InstallStage)
        ensures
            stage == self@.stage,
    {
        self.stage
    }

    /// The item that the run is at.
    pub fn item(&self) -> (item: Item)
        ensures
            item == self@.item,
    {
        self.item
    }

    /// Display name of an item.
    fn name_of(&self, item: Item) -> (name: &str)
        ensures
            name@ == item_name(self@, item),
    {
        match item {
            Item::Manager => MANAGER_NAME,
            Item::First => self.first.name.as_str(),
            Item::Second => self.second.name.as_str(),
        }
    }

    /// The probe of an item.
    fn probe_of(&self, item: Item) -> (probe: Operation)
        ensures
            probe@ == item_probe(self@, item),
    {
        match item {
            Item::Manager => Operation::Probe {
                program: String::from_str(MANAGER_PROGRAM),
                arg: String::from_str(MANAGER_FLAG),
            },
            Item::First => Operation::Probe {
                program: self.first.name.clone(),
                arg: self.first.check_flag.clone(),
            },
            Item::Second => Operation::Probe {
                program: self.second.name.clone(),
                arg: self.second.check_flag.clone(),
            },
        }
    }

    /// The shell command that installs an item.
    fn script_of(&self, item: Item) -> (script: String)
        ensures
            script@ == item_script(self@, item),
    {
        match item {
            Item::Manager => String::from_str(MANAGER_SCRIPT),
            _ => concat3(PACKAGE_SCRIPT_HEAD, self.name_of(item), PACKAGE_SCRIPT_TAIL),
        }
    }

    /// Turns to the item after `item`, or ends the run where `item` is
    /// the last.
    fn turn_to_next(&mut self, item: Item, events: Vec<Progress>) -> (directive: Directive)
        ensures
            (final(self)@, directive@) == turn_to_next(old(self)@, item, events_view(events@)),
    {
        let next = match item {
            Item::Manager => Some(Item::First),
            Item::First => Some(Item::Second),
            Item::Second => None,
        };
        match next {
            Some(next) => {
                let operation = self.probe_of(next);
                self.stage = InstallStage::Probe;
                self.item = next;
                Directive { events, operation }
            },
            None => {
                self.stage = InstallStage::Done;
                Directive { events, operation: Operation::Succeed }
            },
        }
    }

    /// Ends the run with the failure of `item`.
    fn fail_with(&mut self, item: Item, head: String, summary: &str, cause: &str) -> (directive:
        Directive)
        ensures
            (final(self)@, directive@) == fail_with(old(self)@, item, head@, summary@, cause@),
    {
        let step = concat2(self.name_of(item), " installation");
        let event = emit_error(step.as_str(), summary);
        let mut message = head;
        message.append(summary);
        message.append(": ");
        message.append(cause);
        self.stage = InstallStage::Failed;
        Directive {
            events: one_event(event),
            operation: Operation::Fail { error: InstallError { step, message } },
        }
    }

    /// Goes on after the first probe of the item that the run is at: an
    /// item that is present is reported as already installed, one that is
    /// missing has its installation launched.
    fn check_and_install(&mut self, report: &ProcessReport) -> (directive: Directive)
        requires
            old(self)@.stage == InstallStage::Probe,
        ensures
            (final(self)@, directive@) == install_step(old(self)@, *report),
    {
        let item = self.item;
        if report.was_started() {
            let step = concat2(self.name_of(item), " is already installed");
            let event = emit_progress(step.as_str(), floor_of(item), eta_of(item));
            self.turn_to_next(item, one_event(event))
        } else {
            let step = concat2("Installing ", self.name_of(item));
            let event = emit_progress(step.as_str(), floor_of(item), eta_of(item));
            let command = self.script_of(item);
            self.stage = InstallStage::Launch;
            Directive { events: one_event(event), operation: Operation::Launch { command } }
        }
    }

    /// Goes on after the launch of an installation: waits where it
    /// started, fails where it did not. The failure of a package's launch
    /// names the package before it says what went wrong.
    fn launched(&mut self, report: &ProcessReport) -> (directive: Directive)
        requires
            old(self)@.stage == InstallStage::Launch,
        ensures
            (final(self)@, directive@) == install_step(old(self)@, *report),
    {
        if report.was_started() {
            self.stage = InstallStage::Wait;
            Directive { events: no_events(), operation: Operation::Wait { seconds: INSTALL_WAIT_SECS } }
        } else {
            let item = self.item;
            let cause = cause_of(report);
            let head = match item {
                Item::Manager => String::new(),
                _ => concat3("Failed to install ", self.name_of(item), ": "),
            };
            self.fail_with(item, head, LAUNCH_FAILED, cause.as_str())
        }
    }

    /// Goes on after the probe that follows an installation: the item is
    /// installed where it starts now, and the run fails where it does
    /// not.
    fn reprobed(&mut self, report: &ProcessReport) -> (directive: Directive)
        requires
            old(self)@.stage == InstallStage::Reprobe,
        ensures
            (final(self)@, directive@) == install_step(old(self)@, *report),
    {
        let item = self.item;
        if report.was_started() {
            let step = concat2(self.name_of(item), " installed");
            let event = emit_progress(step.as_str(), floor_of(item) + ITEM_SHARE, installed_eta_of(item));
            self.turn_to_next(item, one_event(event))
        } else {
            let summary = concat2("Failed to install ", self.name_of(item));
            let cause = cause_of(report);
            self.fail_with(item, String::new(), summary.as_str(), cause.as_str())
        }
    }

    /// Takes the report of the operation that was named last and names
    /// what to do next, as `install_step` says.
    pub fn advance(&mut self, report: &ProcessReport) -> (directive: Directive)
        ensures
            (final(self)@, directive@) == install_step(old(self)@, *report),
    {
        match self.stage {
            InstallStage::Probe => self.check_and_install(report),
            InstallStage::Launch => self.launched(report),
            InstallStage::Wait => {
                let operation = self.probe_of(self.item);
                self.stage = InstallStage::Reprobe;
                Directive { events: no_events(), operation }
            },
            InstallStage::Reprobe => self.reprobed(report),
            InstallStage::Done => Directive { events: no_events(), operation: Operation::Stop },
            InstallStage::Failed => Directive { events: no_events(), operation: Operation::Stop },
        }
    }
}

} // verus!
