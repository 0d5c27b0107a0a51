//! What follows on each step of the monitor, whatever the process is made up of: with systemd or
//! without, and with any number of triggers.
use crate::ecdysis::EcdysisView;
use crate::executioner::FinishedView;
use crate::executioner::UpgradeErrorView;
use crate::executioner::UpgradeFinished;
use crate::path::SockPath;
use crate::registry::ListenerView;
use crate::tokio_ecdysis::life::Life;
use crate::tokio_ecdysis::monitor::begin;
use crate::tokio_ecdysis::monitor::connection_kept;
use crate::tokio_ecdysis::monitor::manager_at;
use crate::tokio_ecdysis::monitor::outcome_view;
use crate::tokio_ecdysis::monitor::polled_view;
use crate::tokio_ecdysis::monitor::quit_ops;
use crate::tokio_ecdysis::monitor::resume;
use crate::tokio_ecdysis::monitor::text_view;
use crate::tokio_ecdysis::monitor::upgraded_view;
use crate::tokio_ecdysis::monitor::AfterView;
use crate::tokio_ecdysis::monitor::ExitMode;
use crate::tokio_ecdysis::monitor::ModeView;
use crate::tokio_ecdysis::monitor::MonitorConfig;
use crate::tokio_ecdysis::monitor::MonitorStep;
use crate::tokio_ecdysis::monitor::OutcomeView;
use crate::tokio_ecdysis::monitor::QuitOp;
use crate::tokio_ecdysis::monitor::ReplyView;
use crate::tokio_ecdysis::monitor::StepView;
use crate::tokio_ecdysis::monitor::TokioEcdysisUpgradeResult;
use crate::tokio_ecdysis::monitor::TokioEcdysisUpgrader;
use crate::tokio_ecdysis::trigger::ExitCondition;
use crate::tokio_ecdysis::trigger::ExitReason;
use crate::tokio_ecdysis::trigger::TriggerReason;
use tokio::signal::unix::SignalKind;
use vstd::prelude::*;

verus! {

/// A life begins with word to systemd that the process is ready, where systemd is notified, and
/// with waiting for a trigger where it is not; so does what comes after a failed upgrade.
pub proof fn law_beginning(
    config: MonitorConfig,
    pid_file: Option<Seq<u8>>,
    manager: EcdysisView,
)
    ensures
        config.systemd ==> begin(config) is NotifyReady,
        !config.systemd ==> begin(config) is Poll,
        resume(config, StepView::WritePidFile(pid_file), ReplyView::Done, manager) == Some(
            begin(config),
        ),
{
}

/// After word that it is ready the process waits; where that could not be sent it ends with the
/// error.
pub proof fn law_after_word_of_readiness(
    config: MonitorConfig,
    manager: EcdysisView,
    done: (),
    e: Seq<char>,
)
    ensures
        resume(config, StepView::NotifyReady, ReplyView::Sent(Ok(done)), manager) == Some(
            StepView::Poll,
        ),
        resume(config, StepView::NotifyReady, ReplyView::Sent(Err(e)), manager) == Some(
            StepView::Return(OutcomeView::Error(e)),
        ),
{
}

/// A trigger for upgrades, signal or connection, leads to an upgrade with all the sockets in use;
/// where systemd is notified, it hears of it first.
pub proof fn law_after_an_upgrade_trigger(
    config: MonitorConfig,
    manager: EcdysisView,
    reason: TriggerReason,
    done: (),
)
    ensures
        !config.systemd ==> resume(
            config,
            StepView::Poll,
            ReplyView::Polled(Ok((reason, ExitCondition::Upgrade))),
            manager,
        ) == Some(StepView::Upgrade(reason, manager.registry.used)),
        config.systemd ==> resume(
            config,
            StepView::Poll,
            ReplyView::Polled(Ok((reason, ExitCondition::Upgrade))),
            manager,
        ) == Some(StepView::NotifyReloading(reason)),
        resume(
            config,
            StepView::NotifyReloading(reason),
            ReplyView::Sent(Ok(done)),
            manager,
        ) == Some(StepView::Upgrade(reason, manager.registry.used)),
{
}

/// A signal to stop in full leads to quitting: all that is registered is closed.
pub proof fn law_after_a_stop_signal(
    config: MonitorConfig,
    manager: EcdysisView,
    kind: SignalKind,
)
    ensures
        resume(
            config,
            StepView::Poll,
            ReplyView::Polled(Ok((TriggerReason::Signal(kind), ExitCondition::Stop))),
            manager,
        ) == Some(
            StepView::Quit(
                ExitReason::Signal(kind),
                ExitCondition::Stop,
                manager.registry.all_fds(),
            ),
        ),
{
}

/// A connection that asks for a stop, in full or in part, is made to last first; a full stop then
/// quits.
pub proof fn law_after_a_stop_connection(
    config: MonitorConfig,
    manager: EcdysisView,
    path: SockPath,
    condition: ExitCondition,
    reason: ExitReason,
)
    requires
        condition != ExitCondition::Upgrade,
    ensures
        resume(
            config,
            StepView::Poll,
            ReplyView::Polled(Ok((TriggerReason::UnixStream(path), condition))),
            manager,
        ) == Some(StepView::ForgetStream(ExitReason::UnixListener(path), condition)),
        resume(
            config,
            StepView::ForgetStream(reason, ExitCondition::Stop),
            ReplyView::Done,
            manager,
        ) == Some(StepView::Quit(reason, ExitCondition::Stop, manager.registry.all_fds())),
{
}

/// A partial stop goes straight to the first trigger, to clean it up, or ends where there is none.
pub proof fn law_after_a_partial_stop(
    config: MonitorConfig,
    manager: EcdysisView,
    kind: SignalKind,
    reason: ExitReason,
)
    ensures
        ({
            let by_signal = resume(
                config,
                StepView::Poll,
                ReplyView::Polled(Ok((TriggerReason::Signal(kind), ExitCondition::PartialStop))),
                manager,
            );
            let by_connection = resume(
                config,
                StepView::ForgetStream(reason, ExitCondition::PartialStop),
                ReplyView::Done,
                manager,
            );
            if config.triggers > 0 {
                &&& by_signal == Some(
                    StepView::CleanTrigger(0, AfterView::Partial(ExitReason::Signal(kind))),
                )
                &&& by_connection == Some(StepView::CleanTrigger(0, AfterView::Partial(reason)))
            } else if config.systemd {
                &&& by_signal == Some(
                    StepView::Return(
                        OutcomeView::Exit(
                            ModeView::PartialStopWithSystemd,
                            ExitReason::Signal(kind),
                        ),
                    ),
                )
                &&& by_connection == Some(
                    StepView::Return(OutcomeView::Exit(ModeView::PartialStopWithSystemd, reason)),
                )
            } else {
                &&& by_signal == Some(
                    StepView::Return(
                        OutcomeView::Exit(ModeView::PartialStop, ExitReason::Signal(kind)),
                    ),
                )
                &&& by_connection == Some(
                    StepView::Return(OutcomeView::Exit(ModeView::PartialStop, reason)),
                )
            }
        }),
{
}

/// An error on the way shuts the process down, with a text that holds the error to the letter: a
/// trigger that breaks, word of a reload that cannot be sent, an upgrade that does not come back.
/// The triggers are cleaned up, then systemd is told, where it is notified.
pub proof fn law_after_an_error(
    config: MonitorConfig,
    manager: EcdysisView,
    reason: TriggerReason,
    fds: Seq<ListenerView>,
    e: Seq<char>,
)
    ensures
        ({
            let broken = resume(config, StepView::Poll, ReplyView::Polled(Err(e)), manager);
            let unsent = resume(
                config,
                StepView::NotifyReloading(reason),
                ReplyView::Sent(Err(e)),
                manager,
            );
            let lost = resume(
                config,
                StepView::Upgrade(reason, fds),
                ReplyView::Upgraded(Err(e)),
                manager,
            );
            let poll_failed = OutcomeView::Error(
                "Encountered error while polling triggers: "@ + e,
            );
            let upgrade_failed = OutcomeView::Error("Encountered a problem during upgrade: "@ + e);
            if config.triggers > 0 {
                &&& broken == Some(StepView::CleanTrigger(0, AfterView::Shutdown(poll_failed)))
                &&& unsent == Some(StepView::CleanTrigger(0, AfterView::Shutdown(upgrade_failed)))
                &&& lost == Some(StepView::CleanTrigger(0, AfterView::Shutdown(upgrade_failed)))
            } else if config.systemd {
                &&& broken == Some(StepView::NotifyStopping(poll_failed))
                &&& unsent == Some(StepView::NotifyStopping(upgrade_failed))
                &&& lost == Some(StepView::NotifyStopping(upgrade_failed))
            } else {
                &&& broken == Some(StepView::Return(poll_failed))
                &&& unsent == Some(StepView::Return(upgrade_failed))
                &&& lost == Some(StepView::Return(upgrade_failed))
            }
        }),
{
}

/// An upgrade that succeeds has the parent quit: it closes all that it has registered. One that
/// fails has it write its pid file anew.
pub proof fn law_after_an_upgrade(
    config: MonitorConfig,
    manager: EcdysisView,
    reason: TriggerReason,
    fds: Seq<ListenerView>,
    finished: FinishedView,
)
    ensures
        ({
            let next = resume(
                config,
                StepView::Upgrade(reason, fds),
                ReplyView::Upgraded(Ok(finished)),
                manager,
            );
            match (finished, reason) {
                (Ok(_), TriggerReason::Signal(kind)) => next == Some(
                    StepView::Quit(
                        ExitReason::Signal(kind),
                        ExitCondition::Upgrade,
                        manager.registry.all_fds(),
                    ),
                ),
                (Ok(_), TriggerReason::UnixStream(path)) => next == Some(
                    StepView::Quit(
                        ExitReason::UnixListener(path),
                        ExitCondition::Upgrade,
                        manager.registry.all_fds(),
                    ),
                ),
                (Err(_), _) => next == Some(StepView::WritePidFile(manager.pid_file)),
            }
        }),
{
}

/// A process that quit after an upgrade is done. One that quit for a stop goes on to clean up its
/// triggers, and to tell systemd, where it is notified. Listeners that cannot be stopped are an
/// error.
pub proof fn law_after_quitting(
    config: MonitorConfig,
    manager: EcdysisView,
    reason: ExitReason,
    close: Seq<i32>,
    condition: ExitCondition,
)
    ensures
        resume(
            config,
            StepView::Quit(reason, ExitCondition::Upgrade, close),
            ReplyView::Stopped(true),
            manager,
        ) == Some(StepView::Return(OutcomeView::Exit(ModeView::Upgrade, reason))),
        ({
            let outcome = OutcomeView::Exit(ModeView::FullStop, reason);
            let next = resume(
                config,
                StepView::Quit(reason, ExitCondition::Stop, close),
                ReplyView::Stopped(true),
                manager,
            );
            if config.triggers > 0 {
                next == Some(StepView::CleanTrigger(0, AfterView::Shutdown(outcome)))
            } else if config.systemd {
                next == Some(StepView::NotifyStopping(outcome))
            } else {
                next == Some(StepView::Return(outcome))
            }
        }),
        resume(
            config,
            StepView::Quit(reason, condition, close),
            ReplyView::Stopped(false),
            manager,
        ) == Some(StepView::Return(OutcomeView::Error("Cannot stop supervised listeners!"@))),
{
}

/// After one trigger comes the next, until all are cleaned up. Then a partial stop is over, with
/// the notifier for the caller where there is one, and a shutdown tells systemd, where it is
/// notified. A trigger that cannot be cleaned up is an error.
pub proof fn law_after_cleaning_up(
    config: MonitorConfig,
    manager: EcdysisView,
    index: nat,
    after: AfterView,
    done: (),
    e: Seq<char>,
)
    ensures
        ({
            let next = resume(
                config,
                StepView::CleanTrigger(index, after),
                ReplyView::Cleaned(Ok(done)),
                manager,
            );
            match after {
                _ if index + 1 < config.triggers => next == Some(
                    StepView::CleanTrigger(index + 1, after),
                ),
                AfterView::Partial(reason) => {
                    &&& config.systemd ==> next == Some(
                        StepView::Return(
                            OutcomeView::Exit(ModeView::PartialStopWithSystemd, reason),
                        ),
                    )
                    &&& !config.systemd ==> next == Some(
                        StepView::Return(OutcomeView::Exit(ModeView::PartialStop, reason)),
                    )
                },
                AfterView::Shutdown(outcome) => {
                    &&& config.systemd ==> next == Some(StepView::NotifyStopping(outcome))
                    &&& !config.systemd ==> next == Some(StepView::Return(outcome))
                },
            }
        }),
        resume(
            config,
            StepView::CleanTrigger(index, after),
            ReplyView::Cleaned(Err(e)),
            manager,
        ) == Some(StepView::Return(OutcomeView::Error(e))),
{
}

/// Once systemd was told that the process stops, that is over, with the outcome that it had; where
/// it could not be told, with the error.
pub proof fn law_after_word_of_stopping(
    config: MonitorConfig,
    manager: EcdysisView,
    outcome: OutcomeView,
    done: (),
    e: Seq<char>,
)
    ensures
        resume(
            config,
            StepView::NotifyStopping(outcome),
            ReplyView::Sent(Ok(done)),
            manager,
        ) == Some(StepView::Return(outcome)),
        resume(
            config,
            StepView::NotifyStopping(outcome),
            ReplyView::Sent(Err(e)),
            manager,
        ) == Some(StepView::Return(OutcomeView::Error(e))),
{
}

/// A successful upgrade ends the parent, with systemd or without: it quits, which closes all that
/// it has registered, and once its listeners are stopped it returns, with the reason for which the
/// upgrade was made.
pub proof fn law_successful_upgrade_ends_the_parent(life: Life, i: int, reason: TriggerReason)
    requires
        life.valid(),
        0 <= i < life.replies.len(),
        life.steps[i] matches StepView::Upgrade(r, _) && r == reason,
        life.replies[i] matches ReplyView::Upgraded(Ok(finished)) && finished is Ok,
    ensures
        ({
            let why = match reason {
                TriggerReason::Signal(kind) => ExitReason::Signal(kind),
                TriggerReason::UnixStream(path) => ExitReason::UnixListener(path),
            };
            &&& life.steps[i + 1] == StepView::Quit(
                why,
                ExitCondition::Upgrade,
                life.managers[i].registry.all_fds(),
            )
            &&& i + 1 < life.replies.len() && life.replies[i + 1] == ReplyView::Stopped(true)
                ==> life.steps[i + 2] == StepView::Return(OutcomeView::Exit(ModeView::Upgrade, why))
                && life.steps.len() == i + 3
        }),
{
    assert(Some(life.steps[i + 1]) == life.next(i));
    if i + 1 < life.replies.len() && life.replies[i + 1] == ReplyView::Stopped(true) {
        assert(Some(life.steps[i + 1 + 1]) == life.next(i + 1));
        if i + 2 < life.replies.len() {
            assert(Some(life.steps[i + 2 + 1]) == life.next(i + 2));
        }
    }
}

/// A failed upgrade changes nothing for the parent: it writes its pid file anew, begins as it did
/// at first, and waits for the next trigger.
pub proof fn law_failed_upgrade_leads_back_to_waiting(life: Life, i: int)
    requires
        life.valid(),
        0 <= i < life.replies.len(),
        life.steps[i] is Upgrade,
        life.replies[i] matches ReplyView::Upgraded(Ok(finished)) && finished is Err,
    ensures
        life.steps[i + 1] == StepView::WritePidFile(life.managers[i].pid_file),
        i + 1 < life.replies.len() ==> if life.config.systemd {
            life.steps[i + 2] is NotifyReady
        } else {
            life.steps[i + 2] is Poll
        },
        life.config.systemd && i + 2 < life.replies.len() && (life.replies[i + 2]
            matches ReplyView::Sent(sent) && sent is Ok) ==> life.steps[i + 3] is Poll,
{
    assert(Some(life.steps[i + 1]) == life.next(i));
    if i + 1 < life.replies.len() {
        assert(Some(life.steps[i + 1 + 1]) == life.next(i + 1));
        if i + 2 < life.replies.len() {
            assert(Some(life.steps[i + 2 + 1]) == life.next(i + 2));
        }
    }
}

/// A process that quits forgets all its sockets, and nothing but these; at any other step it keeps
/// what it has.
pub proof fn law_quitting_forgets_the_sockets(step: StepView, manager: EcdysisView)
    ensures
        step is Quit ==> manager_at(step, manager).registry.used.len() == 0 && manager_at(
            step,
            manager,
        ).registry.inherited.len() == 0,
        !(step is Quit) ==> manager_at(step, manager) == manager,
        manager_at(step, manager).pid_file == manager.pid_file,
        manager_at(step, manager).notifier == manager.notifier,
        manager_at(step, manager).child == manager.child,
{
}

/// To quit, a process closes each descriptor, in the order given, and then stops its listeners,
/// under its condition. It does nothing else.
pub proof fn law_listeners_are_stopped_last(close: Seq<i32>, condition: ExitCondition)
    ensures
        quit_ops(close, condition).len() == close.len() + 1,
        quit_ops(close, condition).last() == QuitOp::StopListeners(condition),
        forall|i: int|
            0 <= i < close.len() ==> #[trigger] quit_ops(close, condition)[i] == QuitOp::Close(
                close[i],
            ),
{
}

/// A connection that fired is let go when the process starts over or waits, and when it returns,
/// and at no other time.
pub proof fn law_connection_is_let_go(step: StepView)
    ensures
        step is NotifyReady || step is Poll || step is Return <==> !connection_kept(step),
{
}

/// Replies are taken as they are: success as success, and an error with its text.
pub proof fn law_replies_are_what_they_are(
    fired: (TriggerReason, ExitCondition),
    upgraded: UpgradeFinished,
    e: String,
    done: (),
)
    ensures
        text_view(Ok(done)) is Ok,
        text_view(Err(e)) == Err::<(), Seq<char>>(e@),
        polled_view(Ok(fired)) == Ok::<(TriggerReason, ExitCondition), Seq<char>>(fired),
        polled_view(Err(e)) == Err::<(TriggerReason, ExitCondition), Seq<char>>(e@),
        upgraded_view(Err(e)) == Err::<FinishedView, Seq<char>>(e@),
        match upgraded {
            Ok(_) => upgraded_view(Ok(upgraded)) is Ok && upgraded_view(Ok(upgraded))->Ok_0 is Ok,
            Err(error) => upgraded_view(Ok(upgraded)) is Ok && upgraded_view(Ok(upgraded))->Ok_0
                == Err::<(), UpgradeErrorView>(error@),
        },
{
}

/// The outcome is what is returned: the mode, the reason, or the text of the error.
pub proof fn law_outcome_is_what_is_returned<N>(r: TokioEcdysisUpgradeResult<N>)
    ensures
        match r {
            Ok((ExitMode::Upgrade, reason)) => outcome_view(r) == OutcomeView::Exit(
                ModeView::Upgrade,
                reason,
            ),
            Ok((ExitMode::FullStop, reason)) => outcome_view(r) == OutcomeView::Exit(
                ModeView::FullStop,
                reason,
            ),
            Ok((ExitMode::PartialStop, reason)) => outcome_view(r) == OutcomeView::Exit(
                ModeView::PartialStop,
                reason,
            ),
            Ok((ExitMode::PartialStopWithSystemd(_), reason)) => outcome_view(r)
                == OutcomeView::Exit(ModeView::PartialStopWithSystemd, reason),
            Err(e) => outcome_view(r) == OutcomeView::Error(e@),
        },
{
}

/// A step asks what it holds.
pub proof fn law_step_asks_what_it_holds<N>(step: MonitorStep<N>)
    ensures
        match step {
            MonitorStep::NotifyReady(_) => step.spec_step() is NotifyReady,
            MonitorStep::Poll(_) => step.spec_step() is Poll,
            MonitorStep::NotifyReloading(k) => step.spec_step() == StepView::NotifyReloading(
                k.spec_reason(),
            ) && k.spec_step() == step.spec_step(),
            MonitorStep::Upgrade(k) => step.spec_step() == StepView::Upgrade(
                k.spec_reason(),
                k.spec_fds(),
            ) && k.spec_step() == step.spec_step(),
            MonitorStep::WritePidFile(k) => step.spec_step() == StepView::WritePidFile(
                k.spec_pid_file(),
            ) && k.spec_step() == step.spec_step(),
            MonitorStep::ForgetStream(k) => step.spec_step() == StepView::ForgetStream(
                k.spec_reason(),
                k.spec_condition(),
            ) && k.spec_step() == step.spec_step(),
            MonitorStep::Quit(k) => step.spec_step() == StepView::Quit(
                k.spec_reason(),
                k.spec_condition(),
                k.spec_close(),
            ) && k.spec_step() == step.spec_step(),
            MonitorStep::CleanTrigger(k) => step.spec_step() == StepView::CleanTrigger(
                k.spec_index(),
                k.spec_after(),
            ) && k.spec_step() == step.spec_step(),
            MonitorStep::NotifyStopping(k) => step.spec_step() == StepView::NotifyStopping(
                k.spec_outcome(),
            ) && k.spec_step() == step.spec_step(),
            MonitorStep::Return(r) => step.spec_step() == StepView::Return(outcome_view(r)),
        },
{
}

/// A step loses no trigger and no notifier: what it carries on is what the process had, and where
/// systemd is told something, or the notifier goes to the caller, it is the notifier of the
/// process.
pub proof fn law_nothing_is_lost_on_the_way<N>(
    step: MonitorStep<N>,
    upgrader: TokioEcdysisUpgrader<N>,
)
    requires
        step.keeps(upgrader),
    ensures
        match step {
            MonitorStep::NotifyReady(k) => k.spec_upgrader() == upgrader && Some(k.spec_notifier())
                == upgrader.spec_notifier(),
            MonitorStep::Poll(k) => k.spec_upgrader() == upgrader,
            MonitorStep::NotifyReloading(k) => k.spec_upgrader() == upgrader && Some(
                k.spec_notifier(),
            ) == upgrader.spec_notifier(),
            MonitorStep::Upgrade(k) => k.spec_upgrader() == upgrader,
            MonitorStep::WritePidFile(k) => k.spec_upgrader() == upgrader,
            MonitorStep::ForgetStream(k) => k.spec_upgrader() == upgrader,
            MonitorStep::Quit(k) => k.spec_upgrader() == upgrader,
            MonitorStep::CleanTrigger(k) => k.spec_upgrader() == upgrader,
            MonitorStep::NotifyStopping(k) => Some(k.spec_notifier()) == upgrader.spec_notifier(),
            MonitorStep::Return(Ok((ExitMode::PartialStopWithSystemd(n), _))) => Some(n)
                == upgrader.spec_notifier(),
            MonitorStep::Return(_) => true,
        },
{
}

/// The course depends on the number of triggers, and on whether there is a notifier.
pub proof fn law_what_the_course_depends_on<N>(upgrader: TokioEcdysisUpgrader<N>)
    ensures
        upgrader.config().triggers == upgrader.spec_triggers().len(),
        upgrader.config().systemd <==> upgrader.spec_notifier() is Some,
{
}

} // verus!
