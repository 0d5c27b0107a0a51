//! What holds of the whole life of a process, from the first step of its monitor to the last.
use crate::ecdysis::EcdysisView;
use crate::tokio_ecdysis::monitor::after_cleanup;
use crate::tokio_ecdysis::monitor::begin;
use crate::tokio_ecdysis::monitor::connection_kept;
use crate::tokio_ecdysis::monitor::manager_at;
use crate::tokio_ecdysis::monitor::resume;
use crate::tokio_ecdysis::monitor::AfterView;
use crate::tokio_ecdysis::monitor::ModeView;
use crate::tokio_ecdysis::monitor::MonitorConfig;
use crate::tokio_ecdysis::monitor::OutcomeView;
use crate::tokio_ecdysis::monitor::ReplyView;
use crate::tokio_ecdysis::monitor::StepView;
use crate::tokio_ecdysis::trigger::exit_reason_of;
use crate::tokio_ecdysis::trigger::ExitCondition;
use crate::tokio_ecdysis::trigger::ExitReason;
use crate::tokio_ecdysis::trigger::TriggerReason;
use vstd::prelude::*;

verus! {

/// A stretch of the life of a process from its beginning: the steps that were asked, what came
/// back, and what the process held when it came back.
pub struct Life {
    pub config: MonitorConfig,
    pub steps: Seq<StepView>,
    pub replies: Seq<ReplyView>,
    pub managers: Seq<EcdysisView>,
}

impl Life {
    /// Each step follows from the one before.
    pub open spec fn valid(self) -> bool {
        &&& self.steps.len() > 0
        &&& self.steps[0] == begin(self.config)
        &&& self.replies.len() == self.steps.len() - 1
        &&& self.managers.len() == self.replies.len()
        &&& forall|i: int|
            0 <= i < self.replies.len() ==> Some(self.steps[i + 1]) == #[trigger] self.next(i)
    }

    /// The step that follows from step `i`.
    pub open spec fn next(self, i: int) -> Option<StepView> {
        resume(self.config, self.steps[i], self.replies[i], self.managers[i])
    }

    /// The process ended, in this way and for this reason.
    pub open spec fn exits(self, mode: ModeView, reason: ExitReason) -> bool {
        self.steps.last() == StepView::Return(OutcomeView::Exit(mode, reason))
    }

    /// At step `i`, the last trigger that fired was one with this reason and this condition.
    pub open spec fn caused_at(
        self,
        i: int,
        p: int,
        reason: ExitReason,
        condition: ExitCondition,
    ) -> bool {
        &&& 0 <= p < i
        &&& self.steps[p] is Poll
        &&& self.replies[p] matches ReplyView::Polled(Ok((r, c))) && exit_reason_of(r) == reason
            && c == condition
        &&& forall|q: int| p < q <= i ==> !(#[trigger] self.steps[q] is Poll)
    }

    pub open spec fn caused(self, i: int, reason: ExitReason, condition: ExitCondition) -> bool {
        exists|p: int| self.caused_at(i, p, reason, condition)
    }

    /// At step `p` a trigger for a partial stop fired.
    pub open spec fn stops_partially_at(self, p: int) -> bool {
        &&& 0 <= p < self.replies.len()
        &&& self.steps[p] is Poll
        &&& self.replies[p] matches ReplyView::Polled(Ok((_, condition))) && condition
            == ExitCondition::PartialStop
    }

    /// Before step `i`, at step `q`, the process closed all that it had registered, and its
    /// listeners were stopped under this condition.
    pub open spec fn quit_at(
        self,
        i: int,
        q: int,
        reason: ExitReason,
        condition: ExitCondition,
    ) -> bool {
        &&& 0 < q < i
        &&& self.steps[q] == StepView::Quit(
            reason,
            condition,
            self.managers[q - 1].registry.all_fds(),
        )
        &&& self.replies[q] == ReplyView::Stopped(true)
    }

    pub open spec fn quit(self, i: int, reason: ExitReason, condition: ExitCondition) -> bool {
        exists|q: int| self.quit_at(i, q, reason, condition)
    }
}

/// The condition that a way to end belongs to.
pub open spec fn condition_of(mode: ModeView) -> ExitCondition {
    match mode {
        ModeView::Upgrade => ExitCondition::Upgrade,
        ModeView::FullStop => ExitCondition::Stop,
        ModeView::PartialStop => ExitCondition::PartialStop,
        ModeView::PartialStopWithSystemd => ExitCondition::PartialStop,
    }
}

/// Nothing comes after the end.
pub proof fn law_return_is_the_end(life: Life, i: int)
    requires
        life.valid(),
        0 <= i < life.steps.len(),
        life.steps[i] is Return,
    ensures
        i == life.steps.len() - 1,
{
    if i < life.replies.len() {
        assert(life.next(i) is None);
    }
}

/// What a step promises of how the process ends.
spec fn promise(life: Life, i: int) -> bool {
    match life.steps[i] {
        StepView::NotifyReloading(r) => life.caused(i, exit_reason_of(r), ExitCondition::Upgrade),
        StepView::Upgrade(r, _) => life.caused(i, exit_reason_of(r), ExitCondition::Upgrade),
        StepView::ForgetStream(reason, condition) => life.caused(i, reason, condition) && condition
            != ExitCondition::Upgrade && reason is UnixListener,
        StepView::Quit(reason, condition, close) => {
            &&& life.caused(i, reason, condition)
            &&& condition != ExitCondition::PartialStop
            &&& 0 < i
            &&& close == life.managers[i - 1].registry.all_fds()
            &&& reason is UnixListener && condition != ExitCondition::Upgrade
                ==> life.steps[i - 1] == StepView::ForgetStream(reason, condition)
        },
        StepView::CleanTrigger(index, after) => index < life.config.triggers && promised(
            life,
            i,
            after,
        ),
        StepView::NotifyStopping(outcome) => life.config.systemd && promised(
            life,
            i,
            AfterView::Shutdown(outcome),
        ),
        StepView::Return(OutcomeView::Exit(mode, reason)) => {
            &&& life.caused(i, reason, condition_of(mode))
            &&& condition_of(mode) != ExitCondition::PartialStop ==> life.quit(
                i,
                reason,
                condition_of(mode),
            )
            &&& mode is PartialStopWithSystemd ==> life.config.systemd
            &&& mode is PartialStop ==> !life.config.systemd
        },
        _ => true,
    }
}

spec fn promised(life: Life, i: int, after: AfterView) -> bool {
    match after {
        AfterView::Partial(reason) => life.caused(i, reason, ExitCondition::PartialStop),
        AfterView::Shutdown(OutcomeView::Exit(mode, reason)) => mode is FullStop && life.caused(
            i,
            reason,
            ExitCondition::Stop,
        ) && life.quit(i, reason, ExitCondition::Stop),
        AfterView::Shutdown(OutcomeView::Error(_)) => true,
    }
}

/// A cause lasts until the process waits again.
proof fn lemma_cause_lasts(life: Life, i: int, reason: ExitReason, condition: ExitCondition)
    requires
        life.caused(i, reason, condition),
        !(life.steps[i + 1] is Poll),
    ensures
        life.caused(i + 1, reason, condition),
{
    let p = choose|p: int| life.caused_at(i, p, reason, condition);
    assert(life.caused_at(i + 1, p, reason, condition));
}

proof fn lemma_quit_lasts(life: Life, i: int, reason: ExitReason, condition: ExitCondition)
    requires
        life.quit(i, reason, condition),
    ensures
        life.quit(i + 1, reason, condition),
{
    let q = choose|q: int| life.quit_at(i, q, reason, condition);
    assert(life.quit_at(i + 1, q, reason, condition));
}

proof fn lemma_promised_lasts(life: Life, i: int, after: AfterView)
    requires
        promised(life, i, after),
        !(life.steps[i + 1] is Poll),
    ensures
        promised(life, i + 1, after),
{
    match after {
        AfterView::Partial(reason) => {
            lemma_cause_lasts(life, i, reason, ExitCondition::PartialStop);
        },
        AfterView::Shutdown(OutcomeView::Exit(mode, reason)) => {
            lemma_cause_lasts(life, i, reason, ExitCondition::Stop);
            lemma_quit_lasts(life, i, reason, ExitCondition::Stop);
        },
        AfterView::Shutdown(OutcomeView::Error(_)) => {},
    }
}

/// Every step keeps its promise.
proof fn lemma_promise(life: Life, i: int)
    requires
        life.valid(),
        0 <= i < life.steps.len(),
    ensures
        promise(life, i),
    decreases i,
{
    if i > 0 {
        let h = i - 1;
        lemma_promise(life, h);
        assert(Some(life.steps[h + 1]) == life.next(h));
        match life.steps[h] {
            StepView::Poll => {
                if let ReplyView::Polled(Ok((r, c))) = life.replies[h] {
                    if !(life.steps[i] is Poll) {
                        assert(life.caused_at(i, h, exit_reason_of(r), c));
                    }
                }
            },
            StepView::NotifyReloading(r) => {
                lemma_cause_lasts(life, h, exit_reason_of(r), ExitCondition::Upgrade);
            },
            StepView::Upgrade(r, _) => {
                if !(life.steps[i] is Poll) {
                    lemma_cause_lasts(life, h, exit_reason_of(r), ExitCondition::Upgrade);
                }
            },
            StepView::ForgetStream(reason, condition) => {
                lemma_cause_lasts(life, h, reason, condition);
            },
            StepView::Quit(reason, condition, close) => {
                lemma_cause_lasts(life, h, reason, condition);
                if life.replies[h] == ReplyView::Stopped(true) {
                    assert(life.quit_at(i, h, reason, condition));
                }
            },
            StepView::CleanTrigger(_, after) => {
                lemma_promised_lasts(life, h, after);
            },
            StepView::NotifyStopping(outcome) => {
                lemma_promised_lasts(life, h, AfterView::Shutdown(outcome));
            },
            _ => {},
        }
    }
}

/// A process ends for the reason and in the way of the last trigger that fired: an upgrade, a full
/// stop or a partial stop, as that trigger was set up for.
pub proof fn law_exit_has_its_cause(life: Life, mode: ModeView, reason: ExitReason)
    requires
        life.valid(),
        life.exits(mode, reason),
    ensures
        life.caused(life.steps.len() - 1, reason, condition_of(mode)),
{
    lemma_promise(life, life.steps.len() - 1);
}

/// A process that ends with an upgrade or a full stop has closed all the sockets that it had
/// registered, and has had its listeners stopped, under the condition of its end.
pub proof fn law_exit_comes_after_quitting(life: Life, mode: ModeView, reason: ExitReason)
    requires
        life.valid(),
        life.exits(mode, reason),
        condition_of(mode) != ExitCondition::PartialStop,
    ensures
        life.quit(life.steps.len() - 1, reason, condition_of(mode)),
{
    lemma_promise(life, life.steps.len() - 1);
}

/// On a partial stop the notifier goes to the caller exactly where there is one.
pub proof fn law_partial_stop_hands_over_notifier(life: Life, mode: ModeView, reason: ExitReason)
    requires
        life.valid(),
        life.exits(mode, reason),
        condition_of(mode) == ExitCondition::PartialStop,
    ensures
        mode is PartialStopWithSystemd <==> life.config.systemd,
{
    lemma_promise(life, life.steps.len() - 1);
}

/// A step of a life that does not end with a partial stop.
spec fn quits(step: StepView) -> bool {
    match step {
        StepView::Quit(_, _, _) => true,
        StepView::CleanTrigger(_, after) => after is Shutdown,
        StepView::NotifyStopping(_) => true,
        StepView::Return(OutcomeView::Exit(mode, _)) => condition_of(mode)
            != ExitCondition::PartialStop,
        StepView::Return(_) => true,
        _ => false,
    }
}

proof fn lemma_quits_lasts(life: Life, i: int, k: int)
    requires
        life.valid(),
        0 <= i <= k < life.steps.len(),
        quits(life.steps[i]),
    ensures
        quits(life.steps[k]),
    decreases k - i,
{
    if i < k {
        lemma_quits_lasts(life, i, k - 1);
        lemma_promise(life, k - 1);
        assert(Some(life.steps[k - 1 + 1]) == life.next(k - 1));
    }
}

/// A step of a partial stop.
spec fn partial(step: StepView) -> bool {
    match step {
        StepView::ForgetStream(_, condition) => condition == ExitCondition::PartialStop,
        StepView::CleanTrigger(_, after) => after is Partial,
        StepView::Return(_) => true,
        _ => false,
    }
}

proof fn lemma_partial_lasts(life: Life, p: int, i: int)
    requires
        life.valid(),
        life.stops_partially_at(p),
        p < i < life.steps.len(),
    ensures
        partial(life.steps[i]),
    decreases i - p,
{
    if i > p + 1 {
        lemma_partial_lasts(life, p, i - 1);
    }
    assert(Some(life.steps[i - 1 + 1]) == life.next(i - 1));
}

/// In a life with a partial stop systemd is never told that the process stops: that is up to the
/// caller. It holds whatever becomes of the stop.
pub proof fn law_partial_stop_is_silent(life: Life, p: int, i: int)
    requires
        life.valid(),
        life.stops_partially_at(p),
        0 <= i < life.steps.len(),
    ensures
        !(life.steps[i] is NotifyStopping),
{
    if i > p {
        lemma_partial_lasts(life, p, i);
    } else if life.steps[i] is NotifyStopping {
        lemma_quits_lasts(life, i, p);
    }
}

/// In a life with a partial stop nothing is closed, and no listener is stopped: the process keeps
/// all that it had registered. It holds whatever becomes of the stop.
pub proof fn law_partial_stop_closes_nothing(life: Life, p: int, i: int)
    requires
        life.valid(),
        life.stops_partially_at(p),
        0 <= i < life.steps.len(),
    ensures
        !(life.steps[i] is Quit),
        forall|manager: EcdysisView| #[trigger] manager_at(life.steps[i], manager) == manager,
{
    if i > p {
        lemma_partial_lasts(life, p, i);
    } else if life.steps[i] is Quit {
        lemma_quits_lasts(life, i, p);
    }
}

/// A step of the end of a life that is not an upgrade.
spec fn ending(step: StepView) -> bool {
    match step {
        StepView::CleanTrigger(_, _) => true,
        StepView::NotifyStopping(_) => true,
        StepView::Return(OutcomeView::Exit(mode, _)) => !(mode is Upgrade),
        StepView::Return(_) => true,
        _ => false,
    }
}

proof fn lemma_ending_lasts(life: Life, i: int, k: int)
    requires
        life.valid(),
        0 <= i <= k < life.steps.len(),
        ending(life.steps[i]),
    ensures
        ending(life.steps[k]),
    decreases k - i,
{
    if i < k {
        lemma_ending_lasts(life, i, k - 1);
        lemma_promise(life, k - 1);
        assert(Some(life.steps[k - 1 + 1]) == life.next(k - 1));
    }
}

/// After a successful upgrade the triggers are left alone, because the child has them now, and
/// systemd is not told that the process stops, because the child is the service now.
pub proof fn law_upgrade_leaves_the_service_alone(life: Life, reason: ExitReason, i: int)
    requires
        life.valid(),
        life.exits(ModeView::Upgrade, reason),
        0 <= i < life.steps.len(),
    ensures
        !(life.steps[i] is CleanTrigger),
        !(life.steps[i] is NotifyStopping),
{
    if ending(life.steps[i]) {
        lemma_ending_lasts(life, i, life.steps.len() - 1);
    }
}

/// Triggers are cleaned up one after the other, from the first on.
proof fn lemma_cleaned_in_order(life: Life, i: int, index: nat, after: AfterView)
    requires
        life.valid(),
        0 <= i < life.steps.len(),
        life.steps[i] == StepView::CleanTrigger(index, after),
    ensures
        index < i,
        forall|j: int|
            0 <= j <= index ==> #[trigger] life.steps[i - index + j] == StepView::CleanTrigger(
                j as nat,
                after,
            ),
        Some(StepView::CleanTrigger(0, after)) == life.next(i - index - 1),
        !(life.steps[i - index - 1] is CleanTrigger),
    decreases i,
{
    let h = i - 1;
    assert(i > 0);
    assert(Some(life.steps[h + 1]) == life.next(h));
    lemma_promise(life, h);
    if index > 0 {
        let before = (index - 1) as nat;
        assert(life.steps[h] == StepView::CleanTrigger(before, after));
        lemma_cleaned_in_order(life, h, before, after);
        assert forall|j: int| 0 <= j <= index implies #[trigger] life.steps[i - index + j]
            == StepView::CleanTrigger(j as nat, after) by {
            if j < index {
                assert(life.steps[h - before + j] == StepView::CleanTrigger(j as nat, after));
            }
        }
    }
}

/// The step after which a clean-up begins: a full stop quits first, and a partial stop only sees to
/// the connection that fired, where there is one.
spec fn leads_to(step: StepView, after: AfterView) -> bool {
    match after {
        AfterView::Partial(reason) => step is Poll || step == StepView::ForgetStream(
            reason,
            ExitCondition::PartialStop,
        ),
        AfterView::Shutdown(OutcomeView::Exit(_, reason)) => step matches StepView::Quit(r, c, _)
            && r == reason && c == ExitCondition::Stop,
        AfterView::Shutdown(OutcomeView::Error(_)) => true,
    }
}

/// Where the clean-up is over, at step `c`, it was complete: it began as it should, and went
/// through all triggers.
proof fn lemma_complete_cleanup(life: Life, c: int, after: AfterView)
    requires
        life.valid(),
        0 <= c < life.steps.len(),
        life.steps[c] == after_cleanup(life.config, after),
        !(after matches AfterView::Shutdown(OutcomeView::Error(_))),
        after matches AfterView::Shutdown(OutcomeView::Exit(mode, _)) ==> mode is FullStop,
        life.steps[c] is Return && life.config.systemd ==> after is Partial,
    ensures
        ({
            let n = life.config.triggers;
            &&& n < c
            &&& forall|j: int|
                0 <= j < n ==> #[trigger] life.steps[c - n + j] == StepView::CleanTrigger(
                    j as nat,
                    after,
                )
            &&& leads_to(life.steps[c - n - 1], after)
        }),
{
    let n = life.config.triggers;
    let h = c - 1;
    assert(c > 0);
    assert(Some(life.steps[h + 1]) == life.next(h));
    lemma_promise(life, h);
    if n > 0 {
        let last = (n - 1) as nat;
        assert(life.steps[h] == StepView::CleanTrigger(last, after));
        lemma_cleaned_in_order(life, h, last, after);
        assert forall|j: int| 0 <= j < n implies #[trigger] life.steps[c - n + j]
            == StepView::CleanTrigger(j as nat, after) by {
            assert(life.steps[h - last + j] == StepView::CleanTrigger(j as nat, after));
        }
        let q = h - last - 1;
        lemma_promise(life, q);
    }
}

/// A full stop is complete: the process quits, each trigger is cleaned up, in order, and then
/// systemd is told, where it wants to know.
pub proof fn law_full_stop_is_complete(life: Life, reason: ExitReason)
    requires
        life.valid(),
        life.exits(ModeView::FullStop, reason),
    ensures
        ({
            let n = life.config.triggers;
            let outcome = OutcomeView::Exit(ModeView::FullStop, reason);
            // The step after the clean-up.
            let c = life.steps.len() - 1 - (if life.config.systemd {
                1int
            } else {
                0int
            });
            &&& n < c
            &&& life.steps[c - n - 1] matches StepView::Quit(r, condition, _) && r == reason
                && condition == ExitCondition::Stop
            &&& forall|j: int|
                0 <= j < n ==> #[trigger] life.steps[c - n + j] == StepView::CleanTrigger(
                    j as nat,
                    AfterView::Shutdown(outcome),
                )
            &&& life.config.systemd ==> life.steps[c] == StepView::NotifyStopping(outcome)
        }),
{
    let m = life.steps.len() - 1;
    let outcome = OutcomeView::Exit(ModeView::FullStop, reason);
    assert(m > 0);
    if life.config.systemd {
        let h = m - 1;
        assert(Some(life.steps[h + 1]) == life.next(h));
        lemma_promise(life, h);
        assert(life.steps[h] == StepView::NotifyStopping(outcome));
        lemma_complete_cleanup(life, h, AfterView::Shutdown(outcome));
    } else {
        lemma_complete_cleanup(life, m, AfterView::Shutdown(outcome));
    }
}

/// A partial stop consists of cleaning up each trigger, in order, and of nothing else; a connection
/// that asked for it is made to last before.
pub proof fn law_partial_stop_is_complete(life: Life, mode: ModeView, reason: ExitReason)
    requires
        life.valid(),
        life.exits(mode, reason),
        condition_of(mode) == ExitCondition::PartialStop,
    ensures
        ({
            let n = life.config.triggers;
            let c = life.steps.len() - 1;
            &&& n < c
            &&& life.steps[c - n - 1] is Poll || life.steps[c - n - 1] == StepView::ForgetStream(
                reason,
                ExitCondition::PartialStop,
            )
            &&& forall|j: int|
                0 <= j < n ==> #[trigger] life.steps[c - n + j] == StepView::CleanTrigger(
                    j as nat,
                    AfterView::Partial(reason),
                )
        }),
{
    let m = life.steps.len() - 1;
    lemma_promise(life, m);
    lemma_complete_cleanup(life, m, AfterView::Partial(reason));
}

/// A process whose upgrade failed stays what it was: it writes its pid file anew, and then starts
/// over, with word to systemd that it is ready, where systemd wants to know.
pub proof fn law_failed_upgrade_starts_over(life: Life, i: int)
    requires
        life.valid(),
        0 <= i,
        i + 2 < life.steps.len(),
        life.steps[i] is Upgrade,
        life.replies[i] matches ReplyView::Upgraded(Ok(finished)) && finished is Err,
    ensures
        life.steps[i + 1] == StepView::WritePidFile(life.managers[i].pid_file),
        life.steps[i + 2] == begin(life.config),
{
    assert(Some(life.steps[i + 1]) == life.next(i));
    assert(Some(life.steps[i + 1 + 1]) == life.next(i + 1));
}

/// A process that systemd follows never waits for a trigger before it has told systemd that it is
/// ready, and again after every failed upgrade.
pub proof fn law_ready_before_waiting(life: Life, i: int)
    requires
        life.valid(),
        0 <= i < life.steps.len(),
        life.steps[i] is Poll,
        life.config.systemd,
    ensures
        0 < i,
        life.steps[i - 1] is NotifyReady,
        life.replies[i - 1] matches ReplyView::Sent(sent) && sent is Ok,
{
    assert(i > 0);
    assert(Some(life.steps[i - 1 + 1]) == life.next(i - 1));
    lemma_promise(life, i - 1);
}

/// A process that systemd does not follow sends it nothing.
pub proof fn law_no_systemd_no_notice(life: Life, i: int)
    requires
        life.valid(),
        0 <= i < life.steps.len(),
        !life.config.systemd,
    ensures
        !(life.steps[i] is NotifyReady),
        !(life.steps[i] is NotifyReloading),
        !(life.steps[i] is NotifyStopping),
{
    if i > 0 {
        assert(Some(life.steps[i - 1 + 1]) == life.next(i - 1));
    }
}

/// A connection that asked the process to stop, in full or in part, stays open: it is made to last
/// before anything else is done.
pub proof fn law_stop_connection_is_kept(
    life: Life,
    i: int,
    reason: TriggerReason,
    condition: ExitCondition,
)
    requires
        life.valid(),
        0 <= i < life.replies.len(),
        life.steps[i] is Poll,
        life.replies[i] == ReplyView::Polled(Ok((reason, condition))),
        reason is UnixStream,
        condition != ExitCondition::Upgrade,
    ensures
        life.steps[i + 1] == StepView::ForgetStream(exit_reason_of(reason), condition),
{
    assert(Some(life.steps[i + 1]) == life.next(i));
}

/// A connection that asked for an upgrade stays open until the upgrade is over: it is kept from the
/// step after the one at which it fired, while the upgrade runs, and at the step at which its
/// outcome is known.
pub proof fn law_upgrade_connection_is_kept(life: Life, i: int)
    requires
        life.valid(),
        0 <= i < life.steps.len(),
        life.steps[i] is Upgrade,
    ensures
        ({
            // The step at which the trigger fired.
            let p = i - (if life.config.systemd {
                2int
            } else {
                1int
            });
            &&& 0 <= p
            &&& life.steps[p] is Poll
            &&& life.replies[p] == ReplyView::Polled(
                Ok((life.steps[i]->Upgrade_0, ExitCondition::Upgrade)),
            )
            &&& forall|q: int| p < q <= i ==> connection_kept(#[trigger] life.steps[q])
            &&& i < life.replies.len() && (life.replies[i] matches ReplyView::Upgraded(upgraded)
                && upgraded is Ok) ==> connection_kept(life.steps[i + 1])
        }),
{
    assert(i > 0);
    assert(Some(life.steps[i - 1 + 1]) == life.next(i - 1));
    if life.config.systemd {
        assert(life.steps[i - 1] is NotifyReloading);
        assert(i > 1);
        assert(Some(life.steps[i - 2 + 1]) == life.next(i - 2));
    } else {
        law_no_systemd_no_notice(life, i - 1);
    }
    if i < life.replies.len() {
        assert(Some(life.steps[i + 1]) == life.next(i));
    }
}

/// An upgrade hands the child all that the process uses at the time.
pub proof fn law_upgrade_hands_over_everything(life: Life, i: int)
    requires
        life.valid(),
        0 <= i < life.steps.len(),
        life.steps[i] is Upgrade,
    ensures
        0 < i,
        life.steps[i] matches StepView::Upgrade(_, fds) && fds
            == life.managers[i - 1].registry.used,
{
    assert(i > 0);
    assert(Some(life.steps[i - 1 + 1]) == life.next(i - 1));
}

} // verus!
