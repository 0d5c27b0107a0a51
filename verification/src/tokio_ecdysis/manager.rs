//! The upgrade manager of an asynchronous process, and how it is set up.
use crate::ecdysis::listen_started;
use crate::ecdysis::DatagramPair;
use crate::ecdysis::domain_of;
use crate::ecdysis::Ecdysis;
use crate::ecdysis::EcdysisView;
use crate::ecdysis::ListenStart;
use crate::ecdysis::NewSocket;
use crate::ecdysis::ReadyPlan;
use crate::ecdysis::LISTEN_BACKLOG;
use crate::path::SockPath;
use crate::registry::fds_of;
use crate::registry::opt_path_view;
use crate::registry::FdOp;
use crate::registry::RegistryView;
use crate::registry::SockAddr;
use crate::registry::SockInfoView;
use crate::tokio_ecdysis::monitor::TokioEcdysisUpgrader;
use crate::tokio_ecdysis::systemd::SystemdRead;
use crate::tokio_ecdysis::systemd::SystemdSocketsReadError;
use crate::tokio_ecdysis::trigger::law_trigger_does_what_it_was_registered_for;
use crate::tokio_ecdysis::trigger::scan_end;
use crate::tokio_ecdysis::trigger::ExitCondition;
use crate::tokio_ecdysis::trigger::Trigger;
use crate::tokio_ecdysis::trigger::TriggerPoll;
use crate::tokio_ecdysis::trigger::TriggerReason;
use crate::tokio_ecdysis::trigger::TriggerScan;
use tokio::signal::unix::SignalKind;
use vstd::prelude::*;

verus! {

/// Whether a socket is closed when the process stops.
#[derive(Clone, Copy, Debug, PartialEq, Eq, Structural)]
pub enum StopOnShutdown {
    Yes,
    No,
}

/// The first step of opening a socket, and what becomes of it.
pub struct SupervisedStart {
    pub start: ListenStart,
    pub stop_on_shutdown: StopOnShutdown,
}

#[verifier::ext_equal]
pub struct TokioView {
    pub inner: EcdysisView,
    /// The sockets of systemd were read.
    pub systemd_sockets: bool,
}

impl TokioView {
    pub open spec fn with_registry(self, registry: RegistryView) -> TokioView {
        TokioView { inner: self.inner.with_registry(registry), ..self }
    }
}

/// The manager of an asynchronous process.
pub struct TokioEcdysis {
    pub inner: Ecdysis,
    /// The sockets of systemd were read.
    pub systemd_sockets: bool,
}

impl View for TokioEcdysis {
    type V = TokioView;

    open spec fn view(&self) -> TokioView {
        TokioView { inner: self.inner@, systemd_sockets: self.systemd_sockets }
    }
}

/// `r` is the first step of opening `socket` with this supervision.
pub open spec fn supervised_started(
    before: TokioView,
    after: TokioView,
    socket: NewSocket,
    stop_on_shutdown: StopOnShutdown,
    r: SupervisedStart,
) -> bool {
    &&& listen_started(before.inner, after.inner, socket, r.start)
    &&& after.systemd_sockets == before.systemd_sockets
    &&& r.stop_on_shutdown == stop_on_shutdown
}

impl TokioEcdysis {
    /// The manager of the process.
    pub fn new(inner: Ecdysis) -> (r: Self)
        ensures
            r == (TokioEcdysis { inner, systemd_sockets: false }),
    {
        TokioEcdysis { inner, systemd_sockets: false }
    }

    /// Whether this process is the result of an upgrade.
    pub fn is_child(&self) -> (r: bool)
        ensures
            r == self@.inner.child,
    {
        self.inner.is_child()
    }

    /// The manager for blocking sockets.
    pub fn std_ecdysis(&self) -> (r: &Ecdysis)
        ensures
            *r == self.inner,
    {
        &self.inner
    }

    /// Opens a listener on a unix socket.
    pub fn listen_unix(&mut self, stop_on_shutdown: StopOnShutdown, path: SockPath) -> (r:
        SupervisedStart)
        ensures
            supervised_started(
                old(self)@,
                final(self)@,
                NewSocket::Unix(path),
                stop_on_shutdown,
                r,
            ),
    {
        SupervisedStart { start: self.inner.listen_unix(path), stop_on_shutdown }
    }

    /// Opens a listener on a unix socket for sequenced packets.
    pub fn listen_unix_seqpacket(&mut self, stop_on_shutdown: StopOnShutdown, path: SockPath) -> (r:
        SupervisedStart)
        ensures
            supervised_started(
                old(self)@,
                final(self)@,
                NewSocket::UnixSeqpacket(path),
                stop_on_shutdown,
                r,
            ),
    {
        SupervisedStart { start: self.inner.listen_unix_seqpacket(path), stop_on_shutdown }
    }

    /// Opens a TCP listener.
    pub fn listen_tcp(&mut self, stop_on_shutdown: StopOnShutdown, addr: SockAddr) -> (r:
        SupervisedStart)
        ensures
            supervised_started(
                old(self)@,
                final(self)@,
                (NewSocket::TcpBound { domain: domain_of(addr), addr, backlog: LISTEN_BACKLOG }),
                stop_on_shutdown,
                r,
            ),
    {
        SupervisedStart { start: self.inner.listen_tcp(addr), stop_on_shutdown }
    }

    /// Opens a TCP listener. A new one is configured by the caller.
    pub fn build_listen_tcp(&mut self, stop_on_shutdown: StopOnShutdown, addr: SockAddr) -> (r:
        SupervisedStart)
        ensures
            supervised_started(
                old(self)@,
                final(self)@,
                (NewSocket::TcpBuilt { domain: domain_of(addr), addr }),
                stop_on_shutdown,
                r,
            ),
    {
        SupervisedStart { start: self.inner.build_listen_tcp(addr), stop_on_shutdown }
    }

    /// Opens a UDP socket, in order to read it as a stream.
    pub fn build_stream_udp(&mut self, stop_on_shutdown: StopOnShutdown, addr: SockAddr) -> (r:
        SupervisedStart)
        ensures
            supervised_started(
                old(self)@,
                final(self)@,
                (NewSocket::UdpBuilt { domain: domain_of(addr), addr }),
                stop_on_shutdown,
                r,
            ),
    {
        SupervisedStart { start: self.inner.build_socket_udp(addr), stop_on_shutdown }
    }

    /// Opens a UDP socket that can be stopped.
    pub fn build_stoppable_socket_udp(&mut self, stop_on_shutdown: StopOnShutdown, addr: SockAddr)
        -> (r: SupervisedStart)
        ensures
            supervised_started(
                old(self)@,
                final(self)@,
                (NewSocket::UdpBuilt { domain: domain_of(addr), addr }),
                stop_on_shutdown,
                r,
            ),
    {
        SupervisedStart { start: self.inner.build_socket_udp(addr), stop_on_shutdown }
    }

    /// Forms a link in a chain of datagram pairs between successive upgrades.
    pub fn unix_datagram_pair(&mut self, name: String) -> (r: DatagramPair)
        ensures
            ({
                let info = SockInfoView::UnboundUnixDatagram(name@);
                &&& final(self)@ == old(self)@.with_registry(
                    old(self)@.inner.registry.after_take(info),
                )
                &&& r.to_parent == match old(self)@.inner.registry.taken(info) {
                    Some(fd) => Some((fd, FdOp::SetCloexec(fd))),
                    None => None,
                }
                &&& r.to_child.spec_name() == name@
            }),
    {
        self.inner.unix_datagram_pair(name)
    }
}

/// Sets a process up before it declares itself ready: its sockets, its triggers, and its line to
/// systemd, which is an `N`.
pub struct TokioEcdysisBuilder<N> {
    tokio_ecdysis: TokioEcdysis,
    triggers: Vec<(Trigger, ExitCondition)>,
    systemd_notifier: Option<N>,
}

impl<N> TokioEcdysisBuilder<N> {
    pub closed spec fn spec_triggers(&self) -> Seq<(Trigger, ExitCondition)> {
        self.triggers@
    }

    pub closed spec fn spec_notifier(&self) -> Option<N> {
        self.systemd_notifier
    }

    pub closed spec fn spec_tokio(&self) -> TokioEcdysis {
        self.tokio_ecdysis
    }

    /// `self` is `before` with one more trigger.
    pub open spec fn adds(&self, before: Self, trigger: Trigger, action: ExitCondition) -> bool {
        &&& self.spec_triggers() == before.spec_triggers().push((trigger, action))
        &&& self.spec_notifier() == before.spec_notifier()
        &&& self.spec_tokio() == before.spec_tokio()
    }

    /// Sets up a process that upgrades on this signal. The manager is made once the signal was
    /// registered; where that failed, its error is returned.
    pub fn new<E>(upgrade_signal_kind: SignalKind, made: Result<TokioEcdysis, E>) -> (r: Result<
        Self,
        E,
    >)
        ensures
            match made {
                Ok(tokio_ecdysis) => r is Ok && r->Ok_0.spec_triggers() == seq![
                    (Trigger::Signal(upgrade_signal_kind), ExitCondition::Upgrade),
                ] && r->Ok_0.spec_notifier() is None && r->Ok_0.spec_tokio() == tokio_ecdysis,
                Err(e) => r == Err::<Self, E>(e),
            },
    {
        match made {
            Ok(tokio_ecdysis) => {
                let mut triggers: Vec<(Trigger, ExitCondition)> = Vec::new();
                triggers.push((Trigger::Signal(upgrade_signal_kind), ExitCondition::Upgrade));
                assert(triggers@ =~= seq![
                    (Trigger::Signal(upgrade_signal_kind), ExitCondition::Upgrade),
                ]);
                Ok(TokioEcdysisBuilder { tokio_ecdysis, triggers, systemd_notifier: None })
            },
            Err(e) => Err(e),
        }
    }

    /// The manager that is being set up.
    pub fn deref(&self) -> (r: &TokioEcdysis)
        ensures
            *r == self.spec_tokio(),
    {
        &self.tokio_ecdysis
    }

    /// The manager that is being set up, in order to open sockets with it.
    pub fn deref_mut(&mut self) -> (r: &mut TokioEcdysis)
        ensures
            *r == old(self).spec_tokio(),
            final(self).spec_tokio() == *final(r),
            final(self).spec_triggers() == old(self).spec_triggers(),
            final(self).spec_notifier() == old(self).spec_notifier(),
    {
        &mut self.tokio_ecdysis
    }

    /// Has the process do something on a signal, once that was registered.
    fn trigger_on_signal<E>(
        &mut self,
        signal_kind: SignalKind,
        trigger_action: ExitCondition,
        registered: Result<(), E>,
    ) -> (r: Result<(), E>)
        ensures
            r == registered,
            match registered {
                Ok(_) => final(self).adds(*old(self), Trigger::Signal(signal_kind), trigger_action),
                Err(_) => *final(self) == *old(self),
            },
    {
        match registered {
            Ok(done) => {
                self.triggers.push((Trigger::Signal(signal_kind), trigger_action));
                Ok(done)
            },
            Err(e) => Err(e),
        }
    }

    /// Has the process stop on a signal. The signal should not be the one for upgrades: if it is,
    /// it results in an upgrade.
    pub fn stop_on_signal<E>(&mut self, signal_kind: SignalKind, registered: Result<(), E>) -> (r:
        Result<(), E>)
        ensures
            r == registered,
            match registered {
                Ok(_) => final(self).adds(
                    *old(self),
                    Trigger::Signal(signal_kind),
                    ExitCondition::Stop,
                ),
                Err(_) => *final(self) == *old(self),
            },
    {
        self.trigger_on_signal(signal_kind, ExitCondition::Stop, registered)
    }

    /// Has the process stop partially on a signal: it stops watching its triggers, and skips the
    /// rest of the shutdown.
    pub fn partial_stop_on_signal<E>(
        &mut self,
        signal_kind: SignalKind,
        registered: Result<(), E>,
    ) -> (r: Result<(), E>)
        ensures
            r == registered,
            match registered {
                Ok(_) => final(self).adds(
                    *old(self),
                    Trigger::Signal(signal_kind),
                    ExitCondition::PartialStop,
                ),
                Err(_) => *final(self) == *old(self),
            },
    {
        self.trigger_on_signal(signal_kind, ExitCondition::PartialStop, registered)
    }

    /// Opens the socket of a trigger, which is closed when the process stops. The outcome of this
    /// is what the methods that add the trigger take.
    pub fn listen_for_trigger(&mut self, listen_path: SockPath) -> (r: SupervisedStart)
        ensures
            supervised_started(
                old(self).spec_tokio()@,
                final(self).spec_tokio()@,
                NewSocket::Unix(listen_path),
                StopOnShutdown::Yes,
                r,
            ),
            final(self).spec_triggers() == old(self).spec_triggers(),
            final(self).spec_notifier() == old(self).spec_notifier(),
    {
        self.tokio_ecdysis.listen_unix(StopOnShutdown::Yes, listen_path)
    }

    /// Has the process do something on a connection to a socket, once that is open.
    fn trigger_on_socket<E>(
        &mut self,
        listen_path: SockPath,
        trigger_action: ExitCondition,
        listening: Result<(), E>,
    ) -> (r: Result<(), E>)
        ensures
            r == listening,
            match listening {
                Ok(_) => final(self).adds(*old(self), Trigger::Uds(listen_path), trigger_action),
                Err(_) => *final(self) == *old(self),
            },
    {
        match listening {
            Ok(done) => {
                self.triggers.push((Trigger::Uds(listen_path), trigger_action));
                Ok(done)
            },
            Err(e) => Err(e),
        }
    }

    /// Has the process upgrade on a connection to the socket at `listen_path`. The connection
    /// stays open until the upgrade is over.
    pub fn upgrade_on_socket<E>(&mut self, listen_path: SockPath, listening: Result<(), E>) -> (r:
        Result<(), E>)
        ensures
            r == listening,
            match listening {
                Ok(_) => final(self).adds(
                    *old(self),
                    Trigger::Uds(listen_path),
                    ExitCondition::Upgrade,
                ),
                Err(_) => *final(self) == *old(self),
            },
    {
        self.trigger_on_socket(listen_path, ExitCondition::Upgrade, listening)
    }

    /// Has the process stop on a connection to the socket at `listen_path`. The connection stays
    /// open until the process is gone.
    pub fn stop_on_socket<E>(&mut self, listen_path: SockPath, listening: Result<(), E>) -> (r:
        Result<(), E>)
        ensures
            r == listening,
            match listening {
                Ok(_) => final(self).adds(
                    *old(self),
                    Trigger::Uds(listen_path),
                    ExitCondition::Stop,
                ),
                Err(_) => *final(self) == *old(self),
            },
    {
        self.trigger_on_socket(listen_path, ExitCondition::Stop, listening)
    }

    /// Has the process stop partially on a connection to the socket at `listen_path`.
    pub fn partial_stop_on_socket<E>(&mut self, listen_path: SockPath, listening: Result<(), E>)
        -> (r: Result<(), E>)
        ensures
            r == listening,
            match listening {
                Ok(_) => final(self).adds(
                    *old(self),
                    Trigger::Uds(listen_path),
                    ExitCondition::PartialStop,
                ),
                Err(_) => *final(self) == *old(self),
            },
    {
        self.trigger_on_socket(listen_path, ExitCondition::PartialStop, listening)
    }

    /// Sets the pid file of the process.
    pub fn set_pid_file(&mut self, pid_file: SockPath)
        ensures
            final(self).spec_tokio()@ == (TokioView {
                inner: EcdysisView {
                    pid_file: Some(pid_file@),
                    ..old(self).spec_tokio()@.inner
                },
                ..old(self).spec_tokio()@
            }),
            final(self).spec_triggers() == old(self).spec_triggers(),
            final(self).spec_notifier() == old(self).spec_notifier(),
    {
        self.tokio_ecdysis.inner.set_pid_file(pid_file);
    }

    /// Has systemd notified through this line, once it could be opened. That is found out before
    /// the parent hears that this process is ready.
    pub fn enable_systemd_notifications<E>(&mut self, opened: Result<N, E>) -> (r: Result<(), E>)
        ensures
            match opened {
                Ok(notifier) => r == Ok::<(), E>(()) && final(self).spec_notifier() == Some(
                    notifier,
                ) && final(self).spec_triggers() == old(self).spec_triggers() && final(
                    self
                ).spec_tokio() == old(self).spec_tokio(),
                Err(e) => r == Err::<(), E>(e) && *final(self) == *old(self),
            },
    {
        match opened {
            Ok(notifier) => {
                self.systemd_notifier = Some(notifier);
                Ok(())
            },
            Err(e) => Err(e),
        }
    }

    /// The line to systemd over which longer timeouts have to be asked for; nothing has to be done
    /// where systemd is not notified.
    pub fn extend_systemd_timeouts(&mut self) -> (r: Option<&mut N>)
        ensures
            match old(self).spec_notifier() {
                Some(notifier) => r is Some && *r->0 == notifier && final(self).spec_notifier()
                    == Some(*final(r->0)),
                None => r is None && final(self).spec_notifier() is None,
            },
            final(self).spec_triggers() == old(self).spec_triggers(),
            final(self).spec_tokio() == old(self).spec_tokio(),
    {
        match &mut self.systemd_notifier {
            Some(notifier) => Some(notifier),
            None => None,
        }
    }

    /// Whether the sockets of systemd have to be read.
    pub fn read_systemd_sockets<E>(&self) -> (r: Result<SystemdRead, SystemdSocketsReadError<E>>)
        ensures
            r == if self.spec_tokio()@.inner.child {
                Ok::<SystemdRead, SystemdSocketsReadError<E>>(SystemdRead::Skip)
            } else if self.spec_tokio()@.systemd_sockets {
                Err(SystemdSocketsReadError::DuplicateSystemdSocketsRead)
            } else {
                Ok(SystemdRead::Read)
            },
    {
        self.tokio_ecdysis.read_systemd_sockets()
    }

    /// Declares the process ready: what has to be done for that, the manager, with which further
    /// sockets can be opened, and what waits for the upgrade or the shutdown.
    pub fn ready(self) -> (r: (ReadyPlan, TokioEcdysis, TokioEcdysisUpgrader<N>))
        ensures
            r.0.close@ == fds_of(self.spec_tokio()@.inner.registry.inherited),
            opt_path_view(r.0.pid_file) == self.spec_tokio()@.inner.pid_file,
            r.0.notify == self.spec_tokio()@.inner.ready_message(),
            r.1@ == (TokioView {
                inner: self.spec_tokio()@.inner.after_ready(),
                ..self.spec_tokio()@
            }),
            r.2.spec_triggers() == self.spec_triggers(),
            r.2.spec_notifier() == self.spec_notifier(),
    {
        let TokioEcdysisBuilder { mut tokio_ecdysis, triggers, systemd_notifier } = self;
        let plan: ReadyPlan = tokio_ecdysis.inner.ready();
        (plan, tokio_ecdysis, TokioEcdysisUpgrader::new(triggers, systemd_notifier))
    }
}

/// A trigger that is added comes after all others, for what it was set up for, and nothing else
/// changes.
pub proof fn law_trigger_is_added<N>(
    before: TokioEcdysisBuilder<N>,
    after: TokioEcdysisBuilder<N>,
    trigger: Trigger,
    action: ExitCondition,
)
    requires
        after.adds(before, trigger, action),
    ensures
        after.spec_triggers().len() == before.spec_triggers().len() + 1,
        after.spec_triggers().last() == (trigger, action),
        after.spec_triggers().drop_last() == before.spec_triggers(),
        after.spec_notifier() == before.spec_notifier(),
        after.spec_tokio() == before.spec_tokio(),
{
}

/// A trigger has the effect that it was added for: where it fires and nothing before it does, the
/// look at the triggers ends with its reason and that effect. So a connection to a socket for
/// upgrades upgrades, and one to a socket for stops stops.
pub proof fn law_added_trigger_has_its_effect<N>(
    before: TokioEcdysisBuilder<N>,
    after: TokioEcdysisBuilder<N>,
    trigger: Trigger,
    action: ExitCondition,
    polls: Seq<TriggerPoll>,
    reason: TriggerReason,
)
    requires
        after.adds(before, trigger, action),
        polls.len() == after.spec_triggers().len(),
        polls.last() == TriggerPoll::Ready(Ok(reason)),
        forall|j: int| 0 <= j < polls.len() - 1 ==> (#[trigger] polls[j]) is Pending,
    ensures
        scan_end(after.spec_triggers(), polls, 0) == TriggerScan::Fired(Ok((reason, action))),
{
    law_trigger_does_what_it_was_registered_for(after.spec_triggers(), polls, polls.len() - 1);
}

/// Supervision changes nothing in how a socket is opened, and is as it was asked for.
pub proof fn law_supervision_is_as_asked(
    before: TokioView,
    after: TokioView,
    socket: NewSocket,
    stop_on_shutdown: StopOnShutdown,
    r: SupervisedStart,
)
    requires
        supervised_started(before, after, socket, stop_on_shutdown, r),
    ensures
        listen_started(before.inner, after.inner, socket, r.start),
        after.systemd_sockets == before.systemd_sockets,
        r.stop_on_shutdown == stop_on_shutdown,
{
}

/// A manager is seen as it is, and a change of its registry changes nothing else.
pub proof fn law_tokio_registry_is_replaced(
    manager: TokioEcdysis,
    view: TokioView,
    registry: RegistryView,
)
    ensures
        manager@.inner == manager.inner@,
        manager@.systemd_sockets == manager.systemd_sockets,
        view.with_registry(registry).inner.registry == registry,
        view.with_registry(registry).inner.notifier == view.inner.notifier,
        view.with_registry(registry).inner.pid_file == view.inner.pid_file,
        view.with_registry(registry).inner.child == view.inner.child,
        view.with_registry(registry).systemd_sockets == view.systemd_sockets,
{
}

} // verus!
