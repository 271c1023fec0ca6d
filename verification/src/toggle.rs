//! The steps that toggling a service tweak goes through: make sure that the
//! package providing the tweak is installed (installing it when it is not),
//! run the command that enables or disables the units, and read the enabled
//! units again. The caller performs each action and reports its outcome.
use vstd::prelude::*;

use crate::tweaks::{
    all_units_enabled, install_command, install_command_text, is_action_enabled, is_user_scope,
    is_user_service, service_toggle_command, toggle_command_text,
};
use crate::units::SystemdUnits;

verus! {

/// What a toggle waits for.
#[derive(PartialEq, Eq, Structural, Clone, Copy, Debug)]
pub enum ToggleStage {
    /// Nothing has happened yet.
    Start,
    /// The first look whether the package is installed.
    AwaitFirstCheck,
    /// The installation of the package.
    AwaitInstall,
    /// The second look whether the package is installed.
    AwaitSecondCheck,
    /// The toggle command.
    AwaitCommand,
    /// The new list of enabled units.
    AwaitReload,
    /// Nothing: the toggle is over.
    Done,
}

/// An outcome that the caller reports.
#[derive(PartialEq, Eq, Structural, Clone, Copy, Debug)]
pub enum ToggleEvent {
    /// The toggle begins.
    Started,
    /// Whether the package is installed.
    PackageInstalled(bool),
    /// The installation command has ended, whatever its outcome.
    InstallFinished,
    /// The toggle command has ended.
    CommandFinished,
    /// The enabled units have been read again.
    UnitsReloaded,
}

/// What the caller has to do next.
pub enum ToggleAction {
    /// Look whether this package is installed.
    CheckInstalled(String),
    /// Run this installation command in a terminal.
    InstallPackage(String),
    /// Run this shell command.
    RunCommand(String),
    /// Read the enabled units again: the per-user ones when `user` holds,
    /// the system-wide ones otherwise.
    ReloadUnits { user: bool },
    /// The package is still missing: uncheck the tweak and tell the user.
    ReportMissingPackage,
    /// The toggle is over.
    Finish,
}

/// The abstract value of a [`ToggleAction`].
pub enum ToggleActionView {
    CheckInstalled(Seq<char>),
    InstallPackage(Seq<char>),
    RunCommand(Seq<char>),
    ReloadUnits { user: bool },
    ReportMissingPackage,
    Finish,
}

impl View for ToggleAction {
    type V = ToggleActionView;

    open spec fn view(&self) -> ToggleActionView {
        match self {
            ToggleAction::CheckInstalled(p) => ToggleActionView::CheckInstalled(p@),
            ToggleAction::InstallPackage(c) => ToggleActionView::InstallPackage(c@),
            ToggleAction::RunCommand(c) => ToggleActionView::RunCommand(c@),
            ToggleAction::ReloadUnits { user } => ToggleActionView::ReloadUnits { user: *user },
            ToggleAction::ReportMissingPackage => ToggleActionView::ReportMissingPackage,
            ToggleAction::Finish => ToggleActionView::Finish,
        }
    }
}

/// The abstract value of an optional action.
pub open spec fn action_view(action: Option<ToggleAction>) -> Option<ToggleActionView> {
    match action {
        Some(a) => Some(a@),
        None => None,
    }
}

/// A toggle of one tweak in progress.
pub struct ToggleJob {
    /// The shell command that toggles the units.
    pub command: String,
    /// The package that has to be installed first (empty when none).
    pub package: String,
    /// Whether the units are per-user units.
    pub user: bool,
    /// What the toggle waits for.
    pub stage: ToggleStage,
}

/// The abstract value of a [`ToggleJob`].
pub struct ToggleJobView {
    pub command: Seq<char>,
    pub package: Seq<char>,
    pub user: bool,
    pub stage: ToggleStage,
}

impl View for ToggleJob {
    type V = ToggleJobView;

    open spec fn view(&self) -> ToggleJobView {
        ToggleJobView {
            command: self.command@,
            package: self.package@,
            user: self.user,
            stage: self.stage,
        }
    }
}

/// The next stage and the action of a toggle in state `job` when `event`
/// is reported. An event that does not fit the stage changes nothing and
/// asks for no action.
pub open spec fn toggle_transition(job: ToggleJobView, event: ToggleEvent) -> (
    ToggleStage,
    Option<ToggleActionView>,
) {
    match (job.stage, event) {
        (ToggleStage::Start, ToggleEvent::Started) => if job.package.len() == 0 {
            (ToggleStage::AwaitCommand, Some(ToggleActionView::RunCommand(job.command)))
        } else {
            (ToggleStage::AwaitFirstCheck, Some(ToggleActionView::CheckInstalled(job.package)))
        },
        (ToggleStage::AwaitFirstCheck, ToggleEvent::PackageInstalled(installed)) => if installed {
            (ToggleStage::AwaitSecondCheck, Some(ToggleActionView::CheckInstalled(job.package)))
        } else {
            (
                ToggleStage::AwaitInstall,
                Some(ToggleActionView::InstallPackage(install_command_text(job.package))),
            )
        },
        (ToggleStage::AwaitInstall, ToggleEvent::InstallFinished) => (
            ToggleStage::AwaitSecondCheck,
            Some(ToggleActionView::CheckInstalled(job.package)),
        ),
        (ToggleStage::AwaitSecondCheck, ToggleEvent::PackageInstalled(installed)) => if installed {
            (ToggleStage::AwaitCommand, Some(ToggleActionView::RunCommand(job.command)))
        } else {
            (ToggleStage::Done, Some(ToggleActionView::ReportMissingPackage))
        },
        (ToggleStage::AwaitCommand, ToggleEvent::CommandFinished) => (
            ToggleStage::AwaitReload,
            Some(ToggleActionView::ReloadUnits { user: job.user }),
        ),
        (ToggleStage::AwaitReload, ToggleEvent::UnitsReloaded) => (
            ToggleStage::Done,
            Some(ToggleActionView::Finish),
        ),
        _ => (job.stage, None),
    }
}

/// How far a toggle has come: each stage has a larger rank than the stages
/// that can lead to it.
pub open spec fn stage_rank(stage: ToggleStage) -> nat {
    match stage {
        ToggleStage::Start => 0,
        ToggleStage::AwaitFirstCheck => 1,
        ToggleStage::AwaitInstall => 2,
        ToggleStage::AwaitSecondCheck => 3,
        ToggleStage::AwaitCommand => 4,
        ToggleStage::AwaitReload => 5,
        ToggleStage::Done => 6,
    }
}

/// What holds of every toggle: while it waits for the package to be looked
/// at or installed, there is a package to look at.
pub open spec fn toggle_job_valid(job: ToggleJobView) -> bool {
    (job.stage == ToggleStage::AwaitFirstCheck || job.stage == ToggleStage::AwaitInstall
        || job.stage == ToggleStage::AwaitSecondCheck) ==> job.package.len() > 0
}

/// The toggle command is asked for only when no package is needed, or
/// right after the package was found installed on the second look.
pub proof fn lemma_command_needs_package(job: ToggleJobView, event: ToggleEvent)
    ensures
        toggle_transition(job, event).1 matches Some(ToggleActionView::RunCommand(c)) ==> {
            &&& c == job.command
            &&& (job.stage == ToggleStage::Start && event == ToggleEvent::Started
                && job.package.len() == 0) || (job.stage == ToggleStage::AwaitSecondCheck && event
                == ToggleEvent::PackageInstalled(true))
        },
{
}

/// Every action carries the data of its own job: a package check asks
/// about the job's package, an installation installs that package with
/// `pacman -S`, the command run is the job's command, and the units read
/// again are those of the job's scope.
pub proof fn lemma_actions_carry_job_data(job: ToggleJobView, event: ToggleEvent)
    ensures
        toggle_transition(job, event).1 matches Some(ToggleActionView::CheckInstalled(p)) ==> p
            == job.package,
        toggle_transition(job, event).1 matches Some(ToggleActionView::InstallPackage(c)) ==> c
            == "pacman -S "@ + job.package,
        toggle_transition(job, event).1 matches Some(ToggleActionView::RunCommand(c)) ==> c
            == job.command,
        toggle_transition(job, event).1 matches Some(ToggleActionView::ReloadUnits { user }) ==> user
            == job.user,
{
}

/// A missing package is reported only when the package still is not
/// installed on the second look, and the toggle then ends without running
/// its command.
pub proof fn lemma_missing_package_ends_toggle(job: ToggleJobView, event: ToggleEvent)
    ensures
        toggle_transition(job, event).1 matches Some(ToggleActionView::ReportMissingPackage) ==> {
            &&& job.stage == ToggleStage::AwaitSecondCheck
            &&& event == ToggleEvent::PackageInstalled(false)
            &&& toggle_transition(job, event).0 == ToggleStage::Done
        },
{
}

/// Every event that asks for an action moves the toggle strictly forward,
/// and an event that asks for none leaves it where it was; so a toggle asks
/// for at most six actions, and for its command at most once.
pub proof fn lemma_transition_advances(job: ToggleJobView, event: ToggleEvent)
    ensures
        toggle_transition(job, event).1 is Some ==> stage_rank(toggle_transition(job, event).0)
            > stage_rank(job.stage),
        toggle_transition(job, event).1 is None ==> toggle_transition(job, event).0 == job.stage,
{
}

/// A finished toggle stays finished and asks for nothing more.
pub proof fn lemma_done_is_final(job: ToggleJobView, event: ToggleEvent)
    requires
        job.stage == ToggleStage::Done,
    ensures
        toggle_transition(job, event) == (ToggleStage::Done, None::<ToggleActionView>),
{
}

/// Every transition keeps [`toggle_job_valid`].
pub proof fn lemma_transition_keeps_valid(job: ToggleJobView, event: ToggleEvent)
    requires
        toggle_job_valid(job),
    ensures
        toggle_job_valid(
            ToggleJobView { stage: toggle_transition(job, event).0, ..job },
        ),
{
}

/// The job after its stage has become `stage`.
pub open spec fn with_stage(job: ToggleJobView, stage: ToggleStage) -> ToggleJobView {
    ToggleJobView { stage, ..job }
}

/// The state reached and the actions asked for when `events` are reported,
/// in order, to a toggle in state `job`; events that do not fit ask for no
/// action.
pub open spec fn run_toggle(job: ToggleJobView, events: Seq<ToggleEvent>) -> (
    ToggleJobView,
    Seq<ToggleActionView>,
)
    decreases events.len(),
{
    if events.len() == 0 {
        (job, Seq::empty())
    } else {
        let (before, actions) = run_toggle(job, events.drop_last());
        let (stage, action) = toggle_transition(before, events.last());
        (
            with_stage(before, stage),
            match action {
                Some(a) => actions.push(a),
                None => actions,
            },
        )
    }
}

/// Whether an action asks for the toggle command.
pub open spec fn is_command_action(action: ToggleActionView) -> bool {
    action is RunCommand
}

/// Whether an action reports a missing package.
pub open spec fn is_report_action(action: ToggleActionView) -> bool {
    action is ReportMissingPackage
}

/// How many of `actions` satisfy `pred`.
pub open spec fn count_actions(actions: Seq<ToggleActionView>, pred: spec_fn(ToggleActionView) -> bool) -> nat
    decreases actions.len(),
{
    if actions.len() == 0 {
        0
    } else {
        count_actions(actions.drop_last(), pred) + if pred(actions.last()) {
            1nat
        } else {
            0nat
        }
    }
}

/// Whether a toggle in this stage may still ask for its command or report
/// a missing package.
pub open spec fn may_still_act(stage: ToggleStage) -> nat {
    if stage_rank(stage) <= 3 {
        1
    } else {
        0
    }
}

/// Over a whole run of reported events: the command and the report of a
/// missing package are asked for at most once in all, so never both; the
/// run keeps the command, package and scope; and once a toggle has asked for
/// either, it asks for neither again.
pub proof fn lemma_run_acts_at_most_once(job: ToggleJobView, events: Seq<ToggleEvent>)
    ensures
        ({
            let (end, actions) = run_toggle(job, events);
            &&& count_actions(actions, |a: ToggleActionView| is_command_action(a)) + count_actions(
                actions,
                |a: ToggleActionView| is_report_action(a),
            ) + may_still_act(end.stage) <= may_still_act(job.stage)
            &&& end.command == job.command
            &&& end.package == job.package
            &&& end.user == job.user
        }),
    decreases events.len(),
{
    if events.len() > 0 {
        lemma_run_acts_at_most_once(job, events.drop_last());
        let (before, actions) = run_toggle(job, events.drop_last());
        let (stage, action) = toggle_transition(before, events.last());
        if let Some(a) = action {
            let pushed = actions.push(a);
            assert(pushed.drop_last() =~= actions);
            assert(pushed.last() == a);
        }
    }
}

/// A whole run from the start asks for the command at most once and
/// reports a missing package at most once, and never does both.
pub proof fn lemma_run_from_start(job: ToggleJobView, events: Seq<ToggleEvent>)
    requires
        job.stage == ToggleStage::Start,
    ensures
        count_actions(run_toggle(job, events).1, |a: ToggleActionView| is_command_action(a))
            <= 1,
        count_actions(run_toggle(job, events).1, |a: ToggleActionView| is_report_action(a))
            <= 1,
        count_actions(run_toggle(job, events).1, |a: ToggleActionView| is_command_action(a))
            + count_actions(run_toggle(job, events).1, |a: ToggleActionView| is_report_action(a))
            <= 1,
{
    lemma_run_acts_at_most_once(job, events);
}

/// The complete runs of a toggle, from its start, for each way the package
/// checks can turn out: the actions asked for are, in order,
/// - with no package: the command, the reload of the job's units, the end;
/// - with the package installed: two checks, the command, the reload, the end;
/// - with the package missing, then installed: a check, the installation, a
///   check, the command, the reload, the end;
/// - with the package missing after the installation: a check, the
///   installation, a check, the report;
/// - with the package found, then gone: two checks, the report.
pub proof fn lemma_complete_runs(job: ToggleJobView)
    requires
        job.stage == ToggleStage::Start,
    ensures
        job.package.len() == 0 ==> run_toggle(
            job,
            seq![ToggleEvent::Started, ToggleEvent::CommandFinished, ToggleEvent::UnitsReloaded],
        ) == (
            with_stage(job, ToggleStage::Done),
            seq![
                ToggleActionView::RunCommand(job.command),
                ToggleActionView::ReloadUnits { user: job.user },
                ToggleActionView::Finish,
            ],
        ),
        job.package.len() > 0 ==> run_toggle(
            job,
            seq![
                ToggleEvent::Started,
                ToggleEvent::PackageInstalled(true),
                ToggleEvent::PackageInstalled(true),
                ToggleEvent::CommandFinished,
                ToggleEvent::UnitsReloaded,
            ],
        ) == (
            with_stage(job, ToggleStage::Done),
            seq![
                ToggleActionView::CheckInstalled(job.package),
                ToggleActionView::CheckInstalled(job.package),
                ToggleActionView::RunCommand(job.command),
                ToggleActionView::ReloadUnits { user: job.user },
                ToggleActionView::Finish,
            ],
        ),
        job.package.len() > 0 ==> run_toggle(
            job,
            seq![
                ToggleEvent::Started,
                ToggleEvent::PackageInstalled(false),
                ToggleEvent::InstallFinished,
                ToggleEvent::PackageInstalled(true),
                ToggleEvent::CommandFinished,
                ToggleEvent::UnitsReloaded,
            ],
        ) == (
            with_stage(job, ToggleStage::Done),
            seq![
                ToggleActionView::CheckInstalled(job.package),
                ToggleActionView::InstallPackage("pacman -S "@ + job.package),
                ToggleActionView::CheckInstalled(job.package),
                ToggleActionView::RunCommand(job.command),
                ToggleActionView::ReloadUnits { user: job.user },
                ToggleActionView::Finish,
            ],
        ),
        job.package.len() > 0 ==> run_toggle(
            job,
            seq![
                ToggleEvent::Started,
                ToggleEvent::PackageInstalled(false),
                ToggleEvent::InstallFinished,
                ToggleEvent::PackageInstalled(false),
            ],
        ) == (
            with_stage(job, ToggleStage::Done),
            seq![
                ToggleActionView::CheckInstalled(job.package),
                ToggleActionView::InstallPackage("pacman -S "@ + job.package),
                ToggleActionView::CheckInstalled(job.package),
                ToggleActionView::ReportMissingPackage,
            ],
        ),
        job.package.len() > 0 ==> run_toggle(
            job,
            seq![
                ToggleEvent::Started,
                ToggleEvent::PackageInstalled(true),
                ToggleEvent::PackageInstalled(false),
            ],
        ) == (
            with_stage(job, ToggleStage::Done),
            seq![
                ToggleActionView::CheckInstalled(job.package),
                ToggleActionView::CheckInstalled(job.package),
                ToggleActionView::ReportMissingPackage,
            ],
        ),
{
    let s0 = Seq::<ToggleEvent>::empty();
    let started = s0.push(ToggleEvent::Started);
    lemma_run_push(job, s0, ToggleEvent::Started);
    if job.package.len() == 0 {
        let e2 = started.push(ToggleEvent::CommandFinished);
        let e3 = e2.push(ToggleEvent::UnitsReloaded);
        lemma_run_push(job, started, ToggleEvent::CommandFinished);
        lemma_run_push(job, e2, ToggleEvent::UnitsReloaded);
        assert(seq![ToggleEvent::Started, ToggleEvent::CommandFinished, ToggleEvent::UnitsReloaded]
            =~= e3);
        assert(run_toggle(job, e3).1 =~= seq![
            ToggleActionView::RunCommand(job.command),
            ToggleActionView::ReloadUnits { user: job.user },
            ToggleActionView::Finish,
        ]);
    } else {
        let t1 = started.push(ToggleEvent::PackageInstalled(true));
        let f1 = started.push(ToggleEvent::PackageInstalled(false));
        lemma_run_push(job, started, ToggleEvent::PackageInstalled(true));
        lemma_run_push(job, started, ToggleEvent::PackageInstalled(false));
        // found, then found again
        let t2 = t1.push(ToggleEvent::PackageInstalled(true));
        let t3 = t2.push(ToggleEvent::CommandFinished);
        let t4 = t3.push(ToggleEvent::UnitsReloaded);
        lemma_run_push(job, t1, ToggleEvent::PackageInstalled(true));
        lemma_run_push(job, t2, ToggleEvent::CommandFinished);
        lemma_run_push(job, t3, ToggleEvent::UnitsReloaded);
        assert(seq![
            ToggleEvent::Started,
            ToggleEvent::PackageInstalled(true),
            ToggleEvent::PackageInstalled(true),
            ToggleEvent::CommandFinished,
            ToggleEvent::UnitsReloaded,
        ] =~= t4);
        assert(run_toggle(job, t4).1 =~= seq![
            ToggleActionView::CheckInstalled(job.package),
            ToggleActionView::CheckInstalled(job.package),
            ToggleActionView::RunCommand(job.command),
            ToggleActionView::ReloadUnits { user: job.user },
            ToggleActionView::Finish,
        ]);
        // found, then gone
        let g2 = t1.push(ToggleEvent::PackageInstalled(false));
        lemma_run_push(job, t1, ToggleEvent::PackageInstalled(false));
        assert(seq![
            ToggleEvent::Started,
            ToggleEvent::PackageInstalled(true),
            ToggleEvent::PackageInstalled(false),
        ] =~= g2);
        assert(run_toggle(job, g2).1 =~= seq![
            ToggleActionView::CheckInstalled(job.package),
            ToggleActionView::CheckInstalled(job.package),
            ToggleActionView::ReportMissingPackage,
        ]);
        // missing, installed
        let f2 = f1.push(ToggleEvent::InstallFinished);
        lemma_run_push(job, f1, ToggleEvent::InstallFinished);
        let f3 = f2.push(ToggleEvent::PackageInstalled(true));
        let f4 = f3.push(ToggleEvent::CommandFinished);
        let f5 = f4.push(ToggleEvent::UnitsReloaded);
        lemma_run_push(job, f2, ToggleEvent::PackageInstalled(true));
        lemma_run_push(job, f3, ToggleEvent::CommandFinished);
        lemma_run_push(job, f4, ToggleEvent::UnitsReloaded);
        assert(seq![
            ToggleEvent::Started,
            ToggleEvent::PackageInstalled(false),
            ToggleEvent::InstallFinished,
            ToggleEvent::PackageInstalled(true),
            ToggleEvent::CommandFinished,
            ToggleEvent::UnitsReloaded,
        ] =~= f5);
        assert(run_toggle(job, f5).1 =~= seq![
            ToggleActionView::CheckInstalled(job.package),
            ToggleActionView::InstallPackage("pacman -S "@ + job.package),
            ToggleActionView::CheckInstalled(job.package),
            ToggleActionView::RunCommand(job.command),
            ToggleActionView::ReloadUnits { user: job.user },
            ToggleActionView::Finish,
        ]);
        // missing, still missing
        let m3 = f2.push(ToggleEvent::PackageInstalled(false));
        lemma_run_push(job, f2, ToggleEvent::PackageInstalled(false));
        assert(seq![
            ToggleEvent::Started,
            ToggleEvent::PackageInstalled(false),
            ToggleEvent::InstallFinished,
            ToggleEvent::PackageInstalled(false),
        ] =~= m3);
        assert(run_toggle(job, m3).1 =~= seq![
            ToggleActionView::CheckInstalled(job.package),
            ToggleActionView::InstallPackage("pacman -S "@ + job.package),
            ToggleActionView::CheckInstalled(job.package),
            ToggleActionView::ReportMissingPackage,
        ]);
    }
}

/// One more event extends a run by the transition it makes.
proof fn lemma_run_push(job: ToggleJobView, events: Seq<ToggleEvent>, event: ToggleEvent)
    ensures
        run_toggle(job, events.push(event)) == ({
            let (before, actions) = run_toggle(job, events);
            let (stage, action) = toggle_transition(before, event);
            (
                with_stage(before, stage),
                match action {
                    Some(a) => actions.push(a),
                    None => actions,
                },
            )
        }),
{
    assert(events.push(event).drop_last() =~= events);
}

impl ToggleJob {
    /// Plans the toggle of the tweak whose units are `action_data`, of the
    /// given action type and package. A `"user_service"` tweak is judged by
    /// the per-user unit set `global`, any other by the system-wide set
    /// `local`: it counts as enabled when every space-separated unit of it is
    /// enabled in that set, and the command then disables the units, else it
    /// enables them.
    pub fn plan(
        local: &SystemdUnits,
        global: &SystemdUnits,
        action_type: &str,
        action_data: &str,
        package: &str,
    ) -> (job: ToggleJob)
        ensures
            job.user == is_user_scope(action_type@),
            job.command@ == toggle_command_text(
                is_user_scope(action_type@),
                all_units_enabled(
                    (if is_user_scope(action_type@) {
                        global
                    } else {
                        local
                    }).enabled(),
                    action_data@,
                ),
                action_data@,
            ),
            job.package@ == package@,
            job.stage == ToggleStage::Start,
            toggle_job_valid(job@),
    {
        let user = is_user_service(action_type);
        let units = if user {
            global
        } else {
            local
        };
        let enabled = is_action_enabled(units, action_data);
        let command = service_toggle_command(user, enabled, action_data);
        ToggleJob { command, package: package.to_owned(), user, stage: ToggleStage::Start }
    }

    /// Reports `event` and returns the next action, if the event fits the
    /// stage; the command, package and scope never change.
    pub fn step(&mut self, event: ToggleEvent) -> (action: Option<ToggleAction>)
        ensures
            final(self).command == old(self).command,
            final(self).package == old(self).package,
            final(self).user == old(self).user,
            (final(self).stage, action_view(action)) == toggle_transition(old(self)@, event),
            toggle_job_valid(old(self)@) ==> toggle_job_valid(final(self)@),
    {
        match (self.stage, event) {
            (ToggleStage::Start, ToggleEvent::Started) => {
                if self.package.as_str().is_empty() {
                    self.stage = ToggleStage::AwaitCommand;
                    Some(ToggleAction::RunCommand(self.command.clone()))
                } else {
                    self.stage = ToggleStage::AwaitFirstCheck;
                    Some(ToggleAction::CheckInstalled(self.package.clone()))
                }
            },
            (ToggleStage::AwaitFirstCheck, ToggleEvent::PackageInstalled(installed)) => {
                if installed {
                    self.stage = ToggleStage::AwaitSecondCheck;
                    Some(ToggleAction::CheckInstalled(self.package.clone()))
                } else {
                    self.stage = ToggleStage::AwaitInstall;
                    Some(ToggleAction::InstallPackage(install_command(self.package.as_str())))
                }
            },
            (ToggleStage::AwaitInstall, ToggleEvent::InstallFinished) => {
                self.stage = ToggleStage::AwaitSecondCheck;
                Some(ToggleAction::CheckInstalled(self.package.clone()))
            },
            (ToggleStage::AwaitSecondCheck, ToggleEvent::PackageInstalled(installed)) => {
                if installed {
                    self.stage = ToggleStage::AwaitCommand;
                    Some(ToggleAction::RunCommand(self.command.clone()))
                } else {
                    self.stage = ToggleStage::Done;
                    Some(ToggleAction::ReportMissingPackage)
                }
            },
            (ToggleStage::AwaitCommand, ToggleEvent::CommandFinished) => {
                self.stage = ToggleStage::AwaitReload;
                Some(ToggleAction::ReloadUnits { user: self.user })
            },
            (ToggleStage::AwaitReload, ToggleEvent::UnitsReloaded) => {
                self.stage = ToggleStage::Done;
                Some(ToggleAction::Finish)
            },
            _ => None,
        }
    }
}

} // verus!
