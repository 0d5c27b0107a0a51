//! The life of a process after it declared itself ready: it waits for a trigger, and upgrades or
//! stops.
//!
//! Each [`MonitorStep`] asks one thing of the outside. The answer goes to the `resume` of the value
//! that the step carries, which gives the next step.
use crate::executioner::finished_view;
use crate::executioner::FinishedView;
use crate::executioner::UpgradeFinished;
use crate::ecdysis::EcdysisView;
use crate::path::SockPath;
use crate::registry::copy_listeners;
use crate::registry::listeners_view;
use crate::registry::opt_path_view;
use crate::registry::ListenerInfo;
use crate::registry::ListenerView;
use crate::registry::RegistryView;
use crate::ecdysis::Ecdysis;
use crate::tokio_ecdysis::trigger::exit_reason_of;
use crate::tokio_ecdysis::trigger::poll_triggers;
use crate::tokio_ecdysis::trigger::scan_from;
use crate::tokio_ecdysis::trigger::scan_next;
use crate::tokio_ecdysis::trigger::trigger_polled;
use crate::tokio_ecdysis::trigger::ExitCondition;
use crate::tokio_ecdysis::trigger::ExitReason;
use crate::tokio_ecdysis::trigger::Trigger;
use crate::tokio_ecdysis::trigger::TriggerPoll;
use crate::tokio_ecdysis::trigger::TriggerReason;
use crate::tokio_ecdysis::trigger::TriggerScan;
use vstd::prelude::*;
use vstd::string::*;

verus! {

/// How a process came to its end. Useful for knowing when to clean up files or socket paths.
#[derive(Debug)]
pub enum ExitMode<N> {
    Upgrade,
    FullStop,
    PartialStop,
    /// A partial stop while systemd is notified: the caller gets the notifier, and with it the
    /// duty to tell systemd of the shutdown.
    PartialStopWithSystemd(N),
}

/// [`ExitMode`] without the notifier.
pub enum ModeView {
    Upgrade,
    FullStop,
    PartialStop,
    PartialStopWithSystemd,
}

impl<N> View for ExitMode<N> {
    type V = ModeView;

    open spec fn view(&self) -> ModeView {
        match *self {
            ExitMode::Upgrade => ModeView::Upgrade,
            ExitMode::FullStop => ModeView::FullStop,
            ExitMode::PartialStop => ModeView::PartialStop,
            ExitMode::PartialStopWithSystemd(_) => ModeView::PartialStopWithSystemd,
        }
    }
}

/// The outcome of the whole: how and why the process ends, or what went wrong.
pub type TokioEcdysisUpgradeResult<N> = Result<(ExitMode<N>, ExitReason), String>;

#[verifier::ext_equal]
pub enum OutcomeView {
    Exit(ModeView, ExitReason),
    Error(Seq<char>),
}

pub open spec fn outcome_view<N>(r: TokioEcdysisUpgradeResult<N>) -> OutcomeView {
    match r {
        Ok((mode, reason)) => OutcomeView::Exit(mode@, reason),
        Err(e) => OutcomeView::Error(e@),
    }
}

/// What is left to do once the triggers are cleaned up.
pub enum AfterView {
    /// Nothing: a partial stop, for this reason.
    Partial(ExitReason),
    /// The rest of the shutdown, which ends with this outcome.
    Shutdown(OutcomeView),
}

/// What is asked of the outside.
#[verifier::ext_equal]
pub enum StepView {
    /// Tell systemd that the process is ready.
    NotifyReady,
    /// Wait for a trigger.
    Poll,
    /// Tell systemd that the process reloads.
    NotifyReloading(TriggerReason),
    /// Run an upgrade with these descriptors for the child.
    Upgrade(TriggerReason, Seq<ListenerView>),
    /// Write the pid to this file, where there is one.
    WritePidFile(Option<Seq<u8>>),
    /// Keep the connection that fired open until the process is gone.
    ForgetStream(ExitReason, ExitCondition),
    /// Close these descriptors, and stop the supervised listeners as the condition demands.
    Quit(ExitReason, ExitCondition, Seq<i32>),
    /// Clean up the trigger of this index.
    CleanTrigger(nat, AfterView),
    /// Tell systemd that the process stops.
    NotifyStopping(OutcomeView),
    /// It is over.
    Return(OutcomeView),
}

/// What came back from the outside.
pub enum ReplyView {
    Sent(Result<(), Seq<char>>),
    Polled(Result<(TriggerReason, ExitCondition), Seq<char>>),
    Upgraded(Result<FinishedView, Seq<char>>),
    Done,
    Stopped(bool),
    Cleaned(Result<(), Seq<char>>),
}

/// What does not change in the life of the process.
pub struct MonitorConfig {
    /// The number of triggers.
    pub triggers: nat,
    /// Systemd is notified.
    pub systemd: bool,
}

/// Where the life begins, and begins anew after a failed upgrade: systemd has to know that the
/// process is ready.
pub open spec fn begin(config: MonitorConfig) -> StepView {
    if config.systemd {
        StepView::NotifyReady
    } else {
        StepView::Poll
    }
}

pub open spec fn after_cleanup(config: MonitorConfig, after: AfterView) -> StepView {
    match after {
        AfterView::Partial(reason) => StepView::Return(
            OutcomeView::Exit(
                if config.systemd {
                    ModeView::PartialStopWithSystemd
                } else {
                    ModeView::PartialStop
                },
                reason,
            ),
        ),
        AfterView::Shutdown(outcome) => if config.systemd {
            StepView::NotifyStopping(outcome)
        } else {
            StepView::Return(outcome)
        },
    }
}

/// Cleans up the triggers from `index` on, and goes on to what comes after.
pub open spec fn clean_from(config: MonitorConfig, index: nat, after: AfterView) -> StepView {
    if index < config.triggers {
        StepView::CleanTrigger(index, after)
    } else {
        after_cleanup(config, after)
    }
}

/// Shuts the process down with this outcome: the triggers go, and systemd is told.
pub open spec fn shut_down(config: MonitorConfig, outcome: OutcomeView) -> StepView {
    clean_from(config, 0, AfterView::Shutdown(outcome))
}

pub open spec fn quit_step(
    reason: ExitReason,
    condition: ExitCondition,
    manager: EcdysisView,
) -> StepView {
    StepView::Quit(reason, condition, manager.registry.all_fds())
}

/// Stops the process. A partial stop leaves everything but the triggers as it is.
pub open spec fn stop_step(
    config: MonitorConfig,
    reason: ExitReason,
    condition: ExitCondition,
    manager: EcdysisView,
) -> StepView {
    if condition == ExitCondition::PartialStop {
        clean_from(config, 0, AfterView::Partial(reason))
    } else {
        quit_step(reason, condition, manager)
    }
}

/// The connection that fired last, if one did, is kept open at this step. It is let go when the
/// process starts over, and when it ends.
pub open spec fn connection_kept(step: StepView) -> bool {
    !(step is NotifyReady) && !(step is Poll) && !(step is Return)
}

pub open spec fn poll_error(e: Seq<char>) -> OutcomeView {
    OutcomeView::Error("Encountered error while polling triggers: "@ + e)
}

pub open spec fn upgrade_problem(e: Seq<char>) -> OutcomeView {
    OutcomeView::Error("Encountered a problem during upgrade: "@ + e)
}

/// The step after `step` was answered with `reply`, where `manager` is what the process holds at
/// that time. Nothing, where the reply is not one to that step.
pub open spec fn resume(
    config: MonitorConfig,
    step: StepView,
    reply: ReplyView,
    manager: EcdysisView,
) -> Option<StepView> {
    match (step, reply) {
        (StepView::NotifyReady, ReplyView::Sent(sent)) => Some(
            match sent {
                Ok(_) => StepView::Poll,
                Err(e) => StepView::Return(OutcomeView::Error(e)),
            },
        ),
        (StepView::Poll, ReplyView::Polled(polled)) => Some(
            match polled {
                Err(e) => shut_down(config, poll_error(e)),
                Ok((reason, ExitCondition::Upgrade)) => if config.systemd {
                    StepView::NotifyReloading(reason)
                } else {
                    StepView::Upgrade(reason, manager.registry.used)
                },
                Ok((reason, condition)) => if reason is UnixStream {
                    StepView::ForgetStream(exit_reason_of(reason), condition)
                } else {
                    stop_step(config, exit_reason_of(reason), condition, manager)
                },
            },
        ),
        (StepView::NotifyReloading(reason), ReplyView::Sent(sent)) => Some(
            match sent {
                Ok(_) => StepView::Upgrade(reason, manager.registry.used),
                Err(e) => shut_down(config, upgrade_problem(e)),
            },
        ),
        (StepView::Upgrade(reason, _), ReplyView::Upgraded(upgraded)) => Some(
            match upgraded {
                Ok(Ok(_)) => quit_step(exit_reason_of(reason), ExitCondition::Upgrade, manager),
                Ok(Err(_)) => StepView::WritePidFile(manager.pid_file),
                Err(e) => shut_down(config, upgrade_problem(e)),
            },
        ),
        (StepView::WritePidFile(_), ReplyView::Done) => Some(begin(config)),
        (StepView::ForgetStream(reason, condition), ReplyView::Done) => Some(
            stop_step(config, reason, condition, manager),
        ),
        (StepView::Quit(reason, condition, _), ReplyView::Stopped(stopped)) => if !stopped {
            Some(StepView::Return(OutcomeView::Error("Cannot stop supervised listeners!"@)))
        } else {
            match condition {
                ExitCondition::Upgrade => Some(
                    StepView::Return(OutcomeView::Exit(ModeView::Upgrade, reason)),
                ),
                ExitCondition::Stop => Some(
                    shut_down(config, OutcomeView::Exit(ModeView::FullStop, reason)),
                ),
                // A partial stop does not quit.
                ExitCondition::PartialStop => None,
            }
        },
        (StepView::CleanTrigger(index, after), ReplyView::Cleaned(cleaned)) => Some(
            match cleaned {
                Ok(_) => clean_from(config, index + 1, after),
                Err(e) => StepView::Return(OutcomeView::Error(e)),
            },
        ),
        (StepView::NotifyStopping(outcome), ReplyView::Sent(sent)) => Some(
            match sent {
                Ok(_) => StepView::Return(outcome),
                Err(e) => StepView::Return(OutcomeView::Error(e)),
            },
        ),
        _ => None,
    }
}

/// What the process holds once `step` is reached: a process that quits forgets its sockets.
pub open spec fn manager_at(step: StepView, manager: EcdysisView) -> EcdysisView {
    if step is Quit {
        manager.with_registry(RegistryView::empty())
    } else {
        manager
    }
}

pub open spec fn text_view(r: Result<(), String>) -> Result<(), Seq<char>> {
    match r {
        Ok(_) => Ok(()),
        Err(e) => Err(e@),
    }
}

pub open spec fn polled_view(r: Result<(TriggerReason, ExitCondition), String>) -> Result<
    (TriggerReason, ExitCondition),
    Seq<char>,
> {
    match r {
        Ok(x) => Ok(x),
        Err(e) => Err(e@),
    }
}

pub open spec fn upgraded_view(r: Result<UpgradeFinished, String>) -> Result<
    FinishedView,
    Seq<char>,
> {
    match r {
        Ok(f) => Ok(finished_view(f)),
        Err(e) => Err(e@),
    }
}

/// What a process waits with: its triggers, and its line to systemd, where it has one.
pub struct TokioEcdysisUpgrader<N> {
    triggers: Vec<(Trigger, ExitCondition)>,
    systemd_notifier: Option<N>,
}

/// One thing that is asked of the outside.
pub enum MonitorStep<N> {
    /// Tell systemd that the process is ready.
    NotifyReady(NotifyingReady<N>),
    /// Wait for a trigger.
    Poll(Polling<N>),
    /// Tell systemd that the process reloads.
    NotifyReloading(NotifyingReloading<N>),
    /// Run an upgrade.
    Upgrade(Upgrading<N>),
    /// Write the pid file, where there is one; a failure is of no interest.
    WritePidFile(WritingPidFile<N>),
    /// Keep the connection that fired open until the process is gone.
    ForgetStream(ForgettingStream<N>),
    /// Close the descriptors of the manager, and stop the supervised listeners. On a partial stop
    /// this is left out.
    Quit(Quitting<N>),
    /// Clean up a trigger.
    CleanTrigger(Cleaning<N>),
    /// Tell systemd that the process stops.
    NotifyStopping(NotifyingStopping<N>),
    /// It is over.
    Return(TokioEcdysisUpgradeResult<N>),
}

pub struct NotifyingReady<N> {
    /// The line to systemd.
    pub notifier: N,
    triggers: Vec<(Trigger, ExitCondition)>,
}

pub struct Polling<N> {
    upgrader: TokioEcdysisUpgrader<N>,
}

pub struct NotifyingReloading<N> {
    /// The line to systemd.
    pub notifier: N,
    triggers: Vec<(Trigger, ExitCondition)>,
    reason: TriggerReason,
}

pub struct Upgrading<N> {
    upgrader: TokioEcdysisUpgrader<N>,
    reason: TriggerReason,
    fds: Vec<ListenerInfo>,
}

pub struct WritingPidFile<N> {
    upgrader: TokioEcdysisUpgrader<N>,
    pid_file: Option<SockPath>,
}

pub struct ForgettingStream<N> {
    upgrader: TokioEcdysisUpgrader<N>,
    reason: ExitReason,
    condition: ExitCondition,
}

/// One thing that a process does to quit.
#[derive(Clone, Copy, Debug, PartialEq, Eq, Structural)]
pub enum QuitOp {
    /// Close the descriptor; a failure is of no interest.
    Close(i32),
    /// Stop the supervised listeners, as the condition demands.
    StopListeners(ExitCondition),
}

/// What a process does to quit, in this order: it closes its descriptors, and then has its
/// listeners stopped.
pub open spec fn quit_ops(close: Seq<i32>, condition: ExitCondition) -> Seq<QuitOp> {
    close.map_values(|fd: i32| QuitOp::Close(fd)).push(QuitOp::StopListeners(condition))
}

pub struct Quitting<N> {
    upgrader: TokioEcdysisUpgrader<N>,
    reason: ExitReason,
    condition: ExitCondition,
    close: Vec<i32>,
}

/// What is left to do once the triggers are cleaned up.
enum After {
    Partial(ExitReason),
    Stopped(ExitReason),
    Failed(String),
}

pub struct Cleaning<N> {
    upgrader: TokioEcdysisUpgrader<N>,
    index: usize,
    after: After,
}

pub struct NotifyingStopping<N> {
    /// The line to systemd.
    pub notifier: N,
    outcome: Result<ExitReason, String>,
}

impl After {
    closed spec fn view(&self) -> AfterView {
        match *self {
            After::Partial(reason) => AfterView::Partial(reason),
            After::Stopped(reason) => AfterView::Shutdown(
                OutcomeView::Exit(ModeView::FullStop, reason),
            ),
            After::Failed(e) => AfterView::Shutdown(OutcomeView::Error(e@)),
        }
    }
}

impl<N> TokioEcdysisUpgrader<N> {
    pub closed spec fn spec_triggers(&self) -> Seq<(Trigger, ExitCondition)> {
        self.triggers@
    }

    pub closed spec fn spec_notifier(&self) -> Option<N> {
        self.systemd_notifier
    }

    pub open spec fn config(&self) -> MonitorConfig {
        MonitorConfig {
            triggers: self.spec_triggers().len(),
            systemd: self.spec_notifier() is Some,
        }
    }

    pub(crate) fn new(triggers: Vec<(Trigger, ExitCondition)>, systemd_notifier: Option<N>) -> (r:
        Self)
        ensures
            r.spec_triggers() == triggers@,
            r.spec_notifier() == systemd_notifier,
    {
        TokioEcdysisUpgrader { triggers, systemd_notifier }
    }

    /// Makes systemd know that the process is ready, first of all and after a failed upgrade.
    fn initialize(self) -> (r: MonitorStep<N>)
        ensures
            r.spec_step() == begin(self.config()),
            r.keeps(self),
    {
        match self.systemd_notifier {
            Some(notifier) => MonitorStep::NotifyReady(
                NotifyingReady { notifier, triggers: self.triggers },
            ),
            None => MonitorStep::Poll(
                Polling {
                    upgrader: TokioEcdysisUpgrader {
                        triggers: self.triggers,
                        systemd_notifier: None,
                    },
                },
            ),
        }
    }

    /// Starts the life of the process.
    pub fn monitor(self) -> (r: MonitorStep<N>)
        ensures
            r.spec_step() == begin(self.config()),
            r.keeps(self),
    {
        self.initialize()
    }

    /// Begins an upgrade; systemd hears of it first.
    fn upgrade(self, reason: TriggerReason, manager: &Ecdysis) -> (r: MonitorStep<N>)
        ensures
            r.spec_step() == if self.config().systemd {
                StepView::NotifyReloading(reason)
            } else {
                StepView::Upgrade(reason, manager@.registry.used)
            },
            r.keeps(self),
    {
        match self.systemd_notifier {
            Some(notifier) => MonitorStep::NotifyReloading(
                NotifyingReloading { notifier, triggers: self.triggers, reason },
            ),
            None => MonitorStep::Upgrade(
                Upgrading {
                    upgrader: TokioEcdysisUpgrader {
                        triggers: self.triggers,
                        systemd_notifier: None,
                    },
                    reason,
                    fds: manager.get_fds_for_child(),
                },
            ),
        }
    }

    /// Forgets the registered sockets, and has the supervised listeners stopped.
    fn quit(self, reason: ExitReason, condition: ExitCondition, manager: &mut Ecdysis) -> (r:
        MonitorStep<N>)
        requires
            condition != ExitCondition::PartialStop,
        ensures
            r.spec_step() == quit_step(reason, condition, old(manager)@),
            final(manager)@ == manager_at(r.spec_step(), old(manager)@),
            r.keeps(self),
    {
        let close: Vec<i32> = manager.quit();
        MonitorStep::Quit(Quitting { upgrader: self, reason, condition, close })
    }

    /// Stops the process. On a partial stop only the triggers are cleaned up.
    fn stop(self, reason: ExitReason, condition: ExitCondition, manager: &mut Ecdysis) -> (r:
        MonitorStep<N>)
        ensures
            r.spec_step() == stop_step(self.config(), reason, condition, old(manager)@),
            final(manager)@ == manager_at(r.spec_step(), old(manager)@),
            r.keeps(self),
    {
        match condition {
            ExitCondition::PartialStop => self.clean_up_triggers(0, After::Partial(reason)),
            _ => self.quit(reason, condition, manager),
        }
    }

    /// Cleans up the triggers from `index` on, and goes on to what comes after.
    fn clean_up_triggers(self, index: usize, after: After) -> (r: MonitorStep<N>)
        ensures
            r.spec_step() == clean_from(self.config(), index as nat, after.view()),
            r.keeps(self),
    {
        if index < self.triggers.len() {
            return MonitorStep::CleanTrigger(Cleaning { upgrader: self, index, after });
        }
        let outcome: Result<ExitReason, String> = match after {
            After::Partial(reason) => {
                return MonitorStep::Return(
                    match self.systemd_notifier {
                        Some(notifier) => Ok((ExitMode::PartialStopWithSystemd(notifier), reason)),
                        None => Ok((ExitMode::PartialStop, reason)),
                    },
                );
            },
            After::Stopped(reason) => Ok(reason),
            After::Failed(e) => Err(e),
        };
        match self.systemd_notifier {
            Some(notifier) => MonitorStep::NotifyStopping(NotifyingStopping { notifier, outcome }),
            None => MonitorStep::Return(full_stop(outcome)),
        }
    }

    /// Shuts the process down because of an error.
    fn on_shutdown(self, error: String) -> (r: MonitorStep<N>)
        ensures
            r.spec_step() == shut_down(self.config(), OutcomeView::Error(error@)),
            r.keeps(self),
    {
        self.clean_up_triggers(0, After::Failed(error))
    }
}

spec fn full_stop_view(outcome: Result<ExitReason, String>) -> OutcomeView {
    match outcome {
        Ok(reason) => OutcomeView::Exit(ModeView::FullStop, reason),
        Err(e) => OutcomeView::Error(e@),
    }
}

fn full_stop<N>(outcome: Result<ExitReason, String>) -> (r: TokioEcdysisUpgradeResult<N>)
    ensures
        outcome_view(r) == full_stop_view(outcome),
        !(r matches Ok((ExitMode::PartialStopWithSystemd(_), _))),
{
    match outcome {
        Ok(reason) => Ok((ExitMode::FullStop, reason)),
        Err(e) => Err(e),
    }
}

impl<N> MonitorStep<N> {
    /// Whether the connection that fired last has to be kept open at this step.
    pub fn keeps_connection(&self) -> (r: bool)
        ensures
            r == connection_kept(self.spec_step()),
    {
        match self {
            MonitorStep::NotifyReady(_) => false,
            MonitorStep::Poll(_) => false,
            MonitorStep::Return(_) => false,
            _ => true,
        }
    }

    /// What the step asks.
    pub open spec fn spec_step(&self) -> StepView {
        match *self {
            MonitorStep::NotifyReady(_) => StepView::NotifyReady,
            MonitorStep::Poll(_) => StepView::Poll,
            MonitorStep::NotifyReloading(k) => k.spec_step(),
            MonitorStep::Upgrade(k) => k.spec_step(),
            MonitorStep::WritePidFile(k) => k.spec_step(),
            MonitorStep::ForgetStream(k) => k.spec_step(),
            MonitorStep::Quit(k) => k.spec_step(),
            MonitorStep::CleanTrigger(k) => k.spec_step(),
            MonitorStep::NotifyStopping(k) => k.spec_step(),
            MonitorStep::Return(r) => StepView::Return(outcome_view(r)),
        }
    }

    /// The triggers and the notifier that the step carries on; those that end the life of the
    /// process need none.
    pub open spec fn spec_upgrader(&self) -> Option<TokioEcdysisUpgrader<N>> {
        match *self {
            MonitorStep::NotifyReady(k) => Some(k.spec_upgrader()),
            MonitorStep::Poll(k) => Some(k.spec_upgrader()),
            MonitorStep::NotifyReloading(k) => Some(k.spec_upgrader()),
            MonitorStep::Upgrade(k) => Some(k.spec_upgrader()),
            MonitorStep::WritePidFile(k) => Some(k.spec_upgrader()),
            MonitorStep::ForgetStream(k) => Some(k.spec_upgrader()),
            MonitorStep::Quit(k) => Some(k.spec_upgrader()),
            MonitorStep::CleanTrigger(k) => Some(k.spec_upgrader()),
            MonitorStep::NotifyStopping(_) => None,
            MonitorStep::Return(_) => None,
        }
    }

    /// The notifier that the step has systemd told through, or that it hands to the caller.
    pub open spec fn spec_notifier(&self) -> Option<N> {
        match *self {
            MonitorStep::NotifyReady(k) => Some(k.spec_notifier()),
            MonitorStep::NotifyReloading(k) => Some(k.spec_notifier()),
            MonitorStep::NotifyStopping(k) => Some(k.spec_notifier()),
            MonitorStep::Return(Ok((ExitMode::PartialStopWithSystemd(n), _))) => Some(n),
            _ => None,
        }
    }

    /// The step carries on the triggers and the notifier of `upgrader`, and where it makes use of
    /// a notifier, it is that one.
    pub open spec fn keeps(&self, upgrader: TokioEcdysisUpgrader<N>) -> bool {
        &&& match self.spec_upgrader() {
            Some(u) => u == upgrader,
            None => true,
        }
        &&& self.spec_notifier() is Some ==> self.spec_notifier() == upgrader.spec_notifier()
    }
}

/// Readiness is told to systemd through the notifier that is carried on.
pub proof fn law_ready_goes_to_the_notifier<N>(k: NotifyingReady<N>)
    ensures
        Some(k.spec_notifier()) == k.spec_upgrader().spec_notifier(),
{
}

/// So is a reload.
pub proof fn law_reloading_goes_to_the_notifier<N>(k: NotifyingReloading<N>)
    ensures
        Some(k.spec_notifier()) == k.spec_upgrader().spec_notifier(),
{
}

impl<N> NotifyingReady<N> {
    /// The line to systemd.
    pub closed spec fn spec_notifier(&self) -> N {
        self.notifier
    }

    pub closed spec fn spec_upgrader(&self) -> TokioEcdysisUpgrader<N> {
        TokioEcdysisUpgrader { triggers: self.triggers, systemd_notifier: Some(self.notifier) }
    }

    /// Goes on with whether systemd was told; the error is a text.
    pub fn resume(self, sent: Result<(), String>, manager: &Ecdysis) -> (r: MonitorStep<N>)
        ensures
            Some(r.spec_step()) == resume(
                self.spec_upgrader().config(),
                StepView::NotifyReady,
                ReplyView::Sent(text_view(sent)),
                manager@,
            ),
            r.keeps(self.spec_upgrader()),
    {
        match sent {
            Ok(_) => MonitorStep::Poll(
                Polling {
                    upgrader: TokioEcdysisUpgrader {
                        triggers: self.triggers,
                        systemd_notifier: Some(self.notifier),
                    },
                },
            ),
            Err(e) => MonitorStep::Return(Err(e)),
        }
    }
}

impl<N> Polling<N> {
    pub closed spec fn spec_upgrader(&self) -> TokioEcdysisUpgrader<N> {
        self.upgrader
    }

    /// Begins a look at the triggers.
    pub fn scan(&self) -> (r: TriggerScan)
        ensures
            r == scan_from(self.spec_upgrader().spec_triggers(), 0),
    {
        poll_triggers(&self.upgrader.triggers)
    }

    /// Goes on with what the trigger at `index` gave.
    pub fn scanned(&self, index: usize, poll: TriggerPoll) -> (r: TriggerScan)
        requires
            index < self.spec_upgrader().spec_triggers().len(),
        ensures
            r == scan_next(self.spec_upgrader().spec_triggers(), index as int, poll),
    {
        trigger_polled(&self.upgrader.triggers, index, poll)
    }

    /// Goes on with the trigger that fired, or the display text of the error that came instead.
    pub fn resume(
        self,
        polled: Result<(TriggerReason, ExitCondition), String>,
        manager: &mut Ecdysis,
    ) -> (r: MonitorStep<N>)
        ensures
            Some(r.spec_step()) == resume(
                self.spec_upgrader().config(),
                StepView::Poll,
                ReplyView::Polled(polled_view(polled)),
                old(manager)@,
            ),
            final(manager)@ == manager_at(r.spec_step(), old(manager)@),
            r.keeps(self.spec_upgrader()),
    {
        match polled {
            Err(e) => self.upgrader.on_shutdown(
                "Encountered error while polling triggers: ".to_owned().concat(e.as_str()),
            ),
            Ok((reason, ExitCondition::Upgrade)) => self.upgrader.upgrade(reason, manager),
            Ok((reason, condition)) => {
                let connected: bool = match &reason {
                    TriggerReason::UnixStream(_) => true,
                    TriggerReason::Signal(_) => false,
                };
                let reason: ExitReason = reason.exit_reason();
                if connected {
                    MonitorStep::ForgetStream(
                        ForgettingStream { upgrader: self.upgrader, reason, condition },
                    )
                } else {
                    self.upgrader.stop(reason, condition, manager)
                }
            },
        }
    }
}

impl<N> NotifyingReloading<N> {
    /// The line to systemd.
    pub closed spec fn spec_notifier(&self) -> N {
        self.notifier
    }

    pub closed spec fn spec_reason(&self) -> TriggerReason {
        self.reason
    }

    pub open spec fn spec_step(&self) -> StepView {
        StepView::NotifyReloading(self.spec_reason())
    }

    pub closed spec fn spec_upgrader(&self) -> TokioEcdysisUpgrader<N> {
        TokioEcdysisUpgrader { triggers: self.triggers, systemd_notifier: Some(self.notifier) }
    }

    /// Goes on with whether systemd was told.
    pub fn resume(self, sent: Result<(), String>, manager: &Ecdysis) -> (r: MonitorStep<N>)
        ensures
            Some(r.spec_step()) == resume(
                self.spec_upgrader().config(),
                self.spec_step(),
                ReplyView::Sent(text_view(sent)),
                manager@,
            ),
            r.keeps(self.spec_upgrader()),
    {
        let upgrader = TokioEcdysisUpgrader {
            triggers: self.triggers,
            systemd_notifier: Some(self.notifier),
        };
        match sent {
            Ok(_) => MonitorStep::Upgrade(
                Upgrading { upgrader, reason: self.reason, fds: manager.get_fds_for_child() },
            ),
            Err(e) => upgrader.on_shutdown(
                "Encountered a problem during upgrade: ".to_owned().concat(e.as_str()),
            ),
        }
    }
}

impl<N> Upgrading<N> {
    pub closed spec fn spec_upgrader(&self) -> TokioEcdysisUpgrader<N> {
        self.upgrader
    }

    pub closed spec fn spec_reason(&self) -> TriggerReason {
        self.reason
    }

    pub closed spec fn spec_fds(&self) -> Seq<ListenerView> {
        listeners_view(self.fds@)
    }

    pub open spec fn spec_step(&self) -> StepView {
        StepView::Upgrade(self.spec_reason(), self.spec_fds())
    }

    /// The descriptors that the child is to be told of.
    pub fn fds(&self) -> (r: Vec<ListenerInfo>)
        ensures
            listeners_view(r@) == self.spec_fds(),
    {
        copy_listeners(&self.fds)
    }

    /// Goes on with the outcome of the upgrade, or with the text of what kept it from coming back.
    pub fn resume(self, upgraded: Result<UpgradeFinished, String>, manager: &mut Ecdysis) -> (r:
        MonitorStep<N>)
        ensures
            Some(r.spec_step()) == resume(
                self.spec_upgrader().config(),
                self.spec_step(),
                ReplyView::Upgraded(upgraded_view(upgraded)),
                old(manager)@,
            ),
            final(manager)@ == manager_at(r.spec_step(), old(manager)@),
            r.keeps(self.spec_upgrader()),
            upgraded matches Ok(Ok(_)) ==> {
                &&& r is Quit
                &&& r->Quit_0.spec_condition() == ExitCondition::Upgrade
                &&& r->Quit_0.spec_reason() == match self.spec_reason() {
                    TriggerReason::Signal(kind) => ExitReason::Signal(kind),
                    TriggerReason::UnixStream(path) => ExitReason::UnixListener(path),
                }
                &&& r->Quit_0.spec_close() == old(manager)@.registry.all_fds()
            },
            upgraded matches Ok(Err(_)) ==> r is WritePidFile
                && r->WritePidFile_0.spec_pid_file() == old(manager)@.pid_file,
    {
        match upgraded {
            Ok(Ok(_)) => {
                let reason: ExitReason = self.reason.exit_reason();
                self.upgrader.quit(reason, ExitCondition::Upgrade, manager)
            },
            Ok(Err(_)) => MonitorStep::WritePidFile(
                WritingPidFile { upgrader: self.upgrader, pid_file: manager.write_pidfile() },
            ),
            Err(e) => self.upgrader.on_shutdown(
                "Encountered a problem during upgrade: ".to_owned().concat(e.as_str()),
            ),
        }
    }
}

impl<N> WritingPidFile<N> {
    pub closed spec fn spec_upgrader(&self) -> TokioEcdysisUpgrader<N> {
        self.upgrader
    }

    pub closed spec fn spec_pid_file(&self) -> Option<Seq<u8>> {
        opt_path_view(self.pid_file)
    }

    pub open spec fn spec_step(&self) -> StepView {
        StepView::WritePidFile(self.spec_pid_file())
    }

    /// The file to write the pid to.
    pub fn pid_file(&self) -> (r: &Option<SockPath>)
        ensures
            opt_path_view(*r) == self.spec_pid_file(),
    {
        &self.pid_file
    }

    /// Goes on: the process waits for its next trigger.
    pub fn resume(self, manager: &Ecdysis) -> (r: MonitorStep<N>)
        ensures
            Some(r.spec_step()) == resume(
                self.spec_upgrader().config(),
                self.spec_step(),
                ReplyView::Done,
                manager@,
            ),
            r.keeps(self.spec_upgrader()),
    {
        self.upgrader.initialize()
    }
}

impl<N> ForgettingStream<N> {
    pub closed spec fn spec_upgrader(&self) -> TokioEcdysisUpgrader<N> {
        self.upgrader
    }

    pub closed spec fn spec_reason(&self) -> ExitReason {
        self.reason
    }

    pub closed spec fn spec_condition(&self) -> ExitCondition {
        self.condition
    }

    pub open spec fn spec_step(&self) -> StepView {
        StepView::ForgetStream(self.spec_reason(), self.spec_condition())
    }

    /// Goes on once the connection can no longer be closed.
    pub fn resume(self, manager: &mut Ecdysis) -> (r: MonitorStep<N>)
        ensures
            Some(r.spec_step()) == resume(
                self.spec_upgrader().config(),
                self.spec_step(),
                ReplyView::Done,
                old(manager)@,
            ),
            final(manager)@ == manager_at(r.spec_step(), old(manager)@),
            r.keeps(self.spec_upgrader()),
    {
        self.upgrader.stop(self.reason, self.condition, manager)
    }
}

impl<N> Quitting<N> {
    /// A partial stop does not quit.
    #[verifier::type_invariant]
    closed spec fn wf(&self) -> bool {
        self.condition != ExitCondition::PartialStop
    }

    pub closed spec fn spec_upgrader(&self) -> TokioEcdysisUpgrader<N> {
        self.upgrader
    }

    pub closed spec fn spec_reason(&self) -> ExitReason {
        self.reason
    }

    pub closed spec fn spec_condition(&self) -> ExitCondition {
        self.condition
    }

    pub closed spec fn spec_close(&self) -> Seq<i32> {
        self.close@
    }

    pub open spec fn spec_step(&self) -> StepView {
        StepView::Quit(self.spec_reason(), self.spec_condition(), self.spec_close())
    }

    /// What has to be done, in this order, before [`Quitting::resume`], which takes whether the
    /// last could be.
    pub fn ops(&self) -> (r: Vec<QuitOp>)
        ensures
            r@ == quit_ops(self.spec_close(), self.spec_condition()),
            r@.len() == self.spec_close().len() + 1,
            r@.last() == QuitOp::StopListeners(self.spec_condition()),
            forall|i: int|
                0 <= i < self.spec_close().len() ==> #[trigger] r@[i] == QuitOp::Close(
                    self.spec_close()[i],
                ),
    {
        let mut ops: Vec<QuitOp> = Vec::new();
        let mut i: usize = 0;
        while i < self.close.len()
            invariant
                i <= self.close.len(),
                ops@.len() == i,
                forall|j: int| 0 <= j < i ==> #[trigger] ops@[j] == QuitOp::Close(self.close@[j]),
            decreases self.close.len() - i,
        {
            ops.push(QuitOp::Close(self.close[i]));
            i = i + 1;
        }
        ops.push(QuitOp::StopListeners(self.condition));
        assert(ops@ =~= quit_ops(self.spec_close(), self.spec_condition()));
        ops
    }

    /// Goes on with whether the supervised listeners could be stopped.
    pub fn resume(self, stopped: bool, manager: &Ecdysis) -> (r: MonitorStep<N>)
        ensures
            Some(r.spec_step()) == resume(
                self.spec_upgrader().config(),
                self.spec_step(),
                ReplyView::Stopped(stopped),
                manager@,
            ),
            r.keeps(self.spec_upgrader()),
    {
        proof {
            use_type_invariant(&self);
        }
        if !stopped {
            return MonitorStep::Return(Err("Cannot stop supervised listeners!".to_owned()));
        }
        match self.condition {
            ExitCondition::Upgrade => MonitorStep::Return(Ok((ExitMode::Upgrade, self.reason))),
            _ => self.upgrader.clean_up_triggers(0, After::Stopped(self.reason)),
        }
    }
}

impl<N> Cleaning<N> {
    #[verifier::type_invariant]
    closed spec fn wf(&self) -> bool {
        self.index < self.upgrader.triggers@.len()
    }

    pub closed spec fn spec_upgrader(&self) -> TokioEcdysisUpgrader<N> {
        self.upgrader
    }

    pub closed spec fn spec_index(&self) -> nat {
        self.index as nat
    }

    pub closed spec fn spec_after(&self) -> AfterView {
        self.after.view()
    }

    pub open spec fn spec_step(&self) -> StepView {
        StepView::CleanTrigger(self.spec_index(), self.spec_after())
    }

    /// The trigger to clean up.
    pub fn index(&self) -> (r: usize)
        ensures
            r < self.spec_upgrader().spec_triggers().len(),
            r == self.spec_index(),
    {
        proof {
            use_type_invariant(self);
        }
        self.index
    }

    /// Goes on with whether the trigger could be cleaned up.
    pub fn resume(self, cleaned: Result<(), String>, manager: &Ecdysis) -> (r: MonitorStep<N>)
        ensures
            Some(r.spec_step()) == resume(
                self.spec_upgrader().config(),
                self.spec_step(),
                ReplyView::Cleaned(text_view(cleaned)),
                manager@,
            ),
            r.keeps(self.spec_upgrader()),
    {
        proof {
            use_type_invariant(&self);
        }
        match cleaned {
            Ok(_) => {
                let length: usize = self.upgrader.triggers.len();
                assert(self.index < length);
                self.upgrader.clean_up_triggers(self.index + 1, self.after)
            },
            Err(e) => MonitorStep::Return(Err(e)),
        }
    }
}

impl<N> NotifyingStopping<N> {
    /// The line to systemd.
    pub closed spec fn spec_notifier(&self) -> N {
        self.notifier
    }

    pub closed spec fn spec_outcome(&self) -> OutcomeView {
        full_stop_view(self.outcome)
    }

    pub open spec fn spec_step(&self) -> StepView {
        StepView::NotifyStopping(self.spec_outcome())
    }

    /// Goes on with whether systemd was told.
    pub fn resume(self, sent: Result<(), String>, manager: &Ecdysis) -> (r: MonitorStep<N>)
        ensures
            forall|config: MonitorConfig|
                Some(r.spec_step()) == #[trigger] resume(
                    config,
                    self.spec_step(),
                    ReplyView::Sent(text_view(sent)),
                    manager@,
                ),
    {
        match sent {
            Ok(_) => MonitorStep::Return(full_stop(self.outcome)),
            Err(e) => MonitorStep::Return(Err(e)),
        }
    }
}

} // verus!
