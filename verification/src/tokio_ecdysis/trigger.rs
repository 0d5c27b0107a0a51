//! What makes a process upgrade or stop.
use crate::path::SockPath;
use tokio::signal::unix::SignalKind;
use vstd::prelude::*;

verus! {

/// A signal, as tokio's `SignalKind` holds it. The library only carries the value from the trigger
/// to the exit reason; nothing is said of what is inside.
#[verifier::external_type_specification]
#[verifier::external_body]
pub struct ExSignalKind(tokio::signal::unix::SignalKind);

/// What is done when a trigger fires.
#[derive(Clone, Copy, Debug, PartialEq, Eq, Structural)]
pub enum ExitCondition {
    Upgrade,
    Stop,
    PartialStop,
}

/// Something that fires: a signal, or a connection to a unix socket.
#[derive(Debug)]
pub enum Trigger {
    Signal(SignalKind),
    Uds(SockPath),
}

/// What fired. The connection itself stays with the caller.
#[derive(Debug)]
pub enum TriggerReason {
    Signal(SignalKind),
    UnixStream(SockPath),
}

/// Why an upgrade or a shutdown was initiated.
#[derive(Debug)]
pub enum ExitReason {
    Signal(SignalKind),
    UnixListener(SockPath),
}

impl Clone for ExitReason {
    fn clone(&self) -> (r: Self)
        ensures
            match *self {
                ExitReason::Signal(kind) => r == ExitReason::Signal(kind),
                ExitReason::UnixListener(path) => r matches ExitReason::UnixListener(p) && p@
                    == path@,
            },
    {
        match self {
            ExitReason::Signal(kind) => ExitReason::Signal(*kind),
            ExitReason::UnixListener(path) => ExitReason::UnixListener(path.clone()),
        }
    }
}

pub open spec fn exit_reason_of(reason: TriggerReason) -> ExitReason {
    match reason {
        TriggerReason::Signal(kind) => ExitReason::Signal(kind),
        TriggerReason::UnixStream(path) => ExitReason::UnixListener(path),
    }
}

impl TriggerReason {
    /// The exit reason that a trigger stands for.
    pub fn exit_reason(self) -> (r: ExitReason)
        ensures
            r == exit_reason_of(self),
        match self {
            TriggerReason::Signal(kind) => r == ExitReason::Signal(kind),
            TriggerReason::UnixStream(path) => r == ExitReason::UnixListener(path),
        },
    {
        match self {
            TriggerReason::Signal(kind) => ExitReason::Signal(kind),
            TriggerReason::UnixStream(path) => ExitReason::UnixListener(path),
        }
    }
}

/// What one look at a trigger gave. A trigger never ends; an error is given by its display text.
pub enum TriggerPoll {
    Pending,
    Ready(Result<TriggerReason, String>),
}

/// How a look at the triggers goes on.
#[derive(Debug)]
pub enum TriggerScan {
    /// Look at the trigger of this index.
    Poll(usize),
    /// None is ready.
    Pending,
    /// One is; the others are left alone.
    Fired(Result<(TriggerReason, ExitCondition), String>),
}

/// Where a look at the triggers begins.
pub open spec fn scan_from(triggers: Seq<(Trigger, ExitCondition)>, index: int) -> TriggerScan {
    if index < triggers.len() {
        TriggerScan::Poll(index as usize)
    } else {
        TriggerScan::Pending
    }
}

/// How a look at the triggers goes on after the trigger at `index` gave `poll`.
pub open spec fn scan_next(
    triggers: Seq<(Trigger, ExitCondition)>,
    index: int,
    poll: TriggerPoll,
) -> TriggerScan {
    match poll {
        TriggerPoll::Pending => scan_from(triggers, index + 1),
        TriggerPoll::Ready(Ok(reason)) => TriggerScan::Fired(Ok((reason, triggers[index].1))),
        TriggerPoll::Ready(Err(e)) => TriggerScan::Fired(Err(e)),
    }
}

/// Begins a look at the triggers.
pub fn poll_triggers(triggers: &Vec<(Trigger, ExitCondition)>) -> (r: TriggerScan)
    ensures
        r == scan_from(triggers@, 0),
        triggers@.len() > 0 ==> r == TriggerScan::Poll(0),
        triggers@.len() == 0 ==> r is Pending,
{
    if triggers.len() > 0 {
        TriggerScan::Poll(0)
    } else {
        TriggerScan::Pending
    }
}

/// Goes on with what the trigger at `index` gave.
pub fn trigger_polled(
    triggers: &Vec<(Trigger, ExitCondition)>,
    index: usize,
    poll: TriggerPoll,
) -> (r: TriggerScan)
    requires
        index < triggers@.len(),
    ensures
        r == scan_next(triggers@, index as int, poll),
        match poll {
            TriggerPoll::Ready(Ok(reason)) => r == TriggerScan::Fired(
                Ok((reason, triggers@[index as int].1)),
            ),
            TriggerPoll::Ready(Err(e)) => r == TriggerScan::Fired(Err(e)),
            TriggerPoll::Pending => if index + 1 < triggers@.len() {
                r matches TriggerScan::Poll(next) && next == index + 1
            } else {
                r is Pending
            },
        },
{
    match poll {
        TriggerPoll::Pending => if index < triggers.len() - 1 {
            TriggerScan::Poll(index + 1)
        } else {
            TriggerScan::Pending
        },
        TriggerPoll::Ready(Ok(reason)) => TriggerScan::Fired(Ok((reason, triggers[index].1))),
        TriggerPoll::Ready(Err(e)) => TriggerScan::Fired(Err(e)),
    }
}

/// How a look at the triggers ends that begins at `index`, where looking at the trigger `i` gives
/// `polls[i]`.
pub open spec fn scan_end(
    triggers: Seq<(Trigger, ExitCondition)>,
    polls: Seq<TriggerPoll>,
    index: int,
) -> TriggerScan
    decreases triggers.len() - index,
{
    if index < triggers.len() {
        match polls[index] {
            TriggerPoll::Pending => scan_end(triggers, polls, index + 1),
            _ => scan_next(triggers, index, polls[index]),
        }
    } else {
        TriggerScan::Pending
    }
}

/// Puts what the triggers gave through the steps of a look at them.
pub fn scan_outcome(triggers: &Vec<(Trigger, ExitCondition)>, polls: Vec<TriggerPoll>) -> (r:
    TriggerScan)
    requires
        polls@.len() == triggers@.len(),
    ensures
        r == scan_end(triggers@, polls@, 0),
{
    let ghost all = polls@;
    let mut rest: Vec<TriggerPoll> = polls;
    let mut scan: TriggerScan = poll_triggers(triggers);
    let count: usize = triggers.len();
    let ghost mut done: int = 0;
    while rest.len() > 0
        invariant
            all == polls@,
            all.len() == triggers@.len(),
            count == triggers@.len(),
            0 <= done <= all.len(),
            rest@ == all.skip(done),
            scan == scan_from(triggers@, done),
            scan_end(triggers@, all, 0) == scan_end(triggers@, all, done),
        decreases rest.len(),
    {
        let index: usize = match scan {
            TriggerScan::Poll(index) => index,
            other => {
                return other;
            },
        };
        let poll: TriggerPoll = rest.remove(0);
        assert(poll == all[done]);
        assert(rest@ =~= all.skip(done + 1));
        scan = trigger_polled(triggers, index, poll);
        match scan {
            TriggerScan::Fired(_) => {
                return scan;
            },
            _ => {},
        }
        proof {
            done = done + 1;
        }
    }
    scan
}

/// The first trigger that is ready decides, whatever the others are.
pub proof fn law_first_ready_trigger_decides(
    triggers: Seq<(Trigger, ExitCondition)>,
    polls: Seq<TriggerPoll>,
    i: int,
)
    requires
        polls.len() == triggers.len(),
        0 <= i < triggers.len(),
        polls[i] is Ready,
        forall|j: int| 0 <= j < i ==> (#[trigger] polls[j]) is Pending,
    ensures
        scan_end(triggers, polls, 0) == scan_next(triggers, i, polls[i]),
{
    lemma_skip_pending(triggers, polls, 0, i);
}

proof fn lemma_skip_pending(
    triggers: Seq<(Trigger, ExitCondition)>,
    polls: Seq<TriggerPoll>,
    from: int,
    i: int,
)
    requires
        0 <= from <= i < triggers.len(),
        polls.len() == triggers.len(),
        polls[i] is Ready,
        forall|j: int| from <= j < i ==> (#[trigger] polls[j]) is Pending,
    ensures
        scan_end(triggers, polls, from) == scan_next(triggers, i, polls[i]),
    decreases i - from,
{
    if from < i {
        assert(polls[from] is Pending);
        lemma_skip_pending(triggers, polls, from + 1, i);
    }
}

/// Where none is ready the process goes on waiting.
pub proof fn law_no_ready_trigger(
    triggers: Seq<(Trigger, ExitCondition)>,
    polls: Seq<TriggerPoll>,
    from: int,
)
    requires
        polls.len() == triggers.len(),
        0 <= from <= triggers.len(),
        forall|j: int| from <= j < triggers.len() ==> (#[trigger] polls[j]) is Pending,
    ensures
        scan_end(triggers, polls, from) is Pending,
    decreases triggers.len() - from,
{
    if from < triggers.len() {
        assert(polls[from] is Pending);
        law_no_ready_trigger(triggers, polls, from + 1);
    }
}

/// What the triggers give when the signal `kind` has arrived, and nothing else has happened: every
/// trigger for that signal is ready.
pub open spec fn signal_arrived(triggers: Seq<(Trigger, ExitCondition)>, kind: SignalKind) -> Seq<
    TriggerPoll,
> {
    triggers.map_values(
        |t: (Trigger, ExitCondition)|
            if t.0 == Trigger::Signal(kind) {
                TriggerPoll::Ready(Ok(TriggerReason::Signal(kind)))
            } else {
                TriggerPoll::Pending
            },
    )
}

/// A signal that was registered for several ends does what it was registered for first. The signal
/// for upgrades is registered before all others, so registering it for an exit as well changes
/// nothing: it results in an upgrade.
pub proof fn law_upgrade_signal_upgrades(
    triggers: Seq<(Trigger, ExitCondition)>,
    upgrade: SignalKind,
)
    requires
        triggers.len() > 0,
        triggers[0] == (Trigger::Signal(upgrade), ExitCondition::Upgrade),
    ensures
        scan_end(triggers, signal_arrived(triggers, upgrade), 0) == TriggerScan::Fired(
            Ok((TriggerReason::Signal(upgrade), ExitCondition::Upgrade)),
        ),
{
}

/// Every registered signal has its effect: that of the first trigger for it.
pub proof fn law_registered_signal_fires(
    triggers: Seq<(Trigger, ExitCondition)>,
    kind: SignalKind,
    i: int,
)
    requires
        0 <= i < triggers.len(),
        triggers[i].0 == Trigger::Signal(kind),
        forall|j: int| 0 <= j < i ==> (#[trigger] triggers[j]).0 != Trigger::Signal(kind),
    ensures
        scan_end(triggers, signal_arrived(triggers, kind), 0) == TriggerScan::Fired(
            Ok((TriggerReason::Signal(kind), triggers[i].1)),
        ),
{
    let polls = signal_arrived(triggers, kind);
    assert forall|j: int| 0 <= j < i implies (#[trigger] polls[j]) is Pending by {
        assert(triggers[j].0 != Trigger::Signal(kind));
    }
    law_first_ready_trigger_decides(triggers, polls, i);
}

/// A trigger that fires, by a signal or a connection, has the effect that it was registered with,
/// and its own reason, where it is the first that is ready. So does one that breaks: its error ends
/// the look.
pub proof fn law_trigger_does_what_it_was_registered_for(
    triggers: Seq<(Trigger, ExitCondition)>,
    polls: Seq<TriggerPoll>,
    i: int,
)
    requires
        polls.len() == triggers.len(),
        0 <= i < triggers.len(),
        !(polls[i] is Pending),
        forall|j: int| 0 <= j < i ==> (#[trigger] polls[j]) is Pending,
    ensures
        match polls[i] {
            TriggerPoll::Ready(Ok(reason)) => scan_end(triggers, polls, 0) == TriggerScan::Fired(
                Ok((reason, triggers[i].1)),
            ),
            TriggerPoll::Ready(Err(e)) => scan_end(triggers, polls, 0) == TriggerScan::Fired(
                Err(e),
            ),
            TriggerPoll::Pending => true,
        },
{
    law_first_ready_trigger_decides(triggers, polls, i);
}

/// The triggers are looked at one after the other, from the first on, until one is ready; then the
/// look is over, as it is after the last.
pub proof fn law_triggers_are_looked_at_in_order(
    triggers: Seq<(Trigger, ExitCondition)>,
    index: int,
    reason: TriggerReason,
    error: String,
)
    requires
        0 <= index < triggers.len() <= usize::MAX,
    ensures
        scan_from(triggers, index) == TriggerScan::Poll(index as usize),
        scan_from(triggers, triggers.len() as int) is Pending,
        index + 1 < triggers.len() ==> scan_next(triggers, index, TriggerPoll::Pending)
            == TriggerScan::Poll((index + 1) as usize),
        index + 1 == triggers.len() ==> scan_next(triggers, index, TriggerPoll::Pending) is Pending,
        scan_next(triggers, index, TriggerPoll::Ready(Ok(reason))) == TriggerScan::Fired(
            Ok((reason, triggers[index].1)),
        ),
        scan_next(triggers, index, TriggerPoll::Ready(Err(error))) == TriggerScan::Fired(
            Err(error),
        ),
{
}

/// The reason for an exit is the signal, or the path of the connection, that fired.
pub proof fn law_exit_reason_is_what_fired(kind: SignalKind, path: SockPath)
    ensures
        exit_reason_of(TriggerReason::Signal(kind)) == ExitReason::Signal(kind),
        exit_reason_of(TriggerReason::UnixStream(path)) == ExitReason::UnixListener(path),
{
}

} // verus!
