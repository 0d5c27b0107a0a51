use ecdysis::ecdysis::{Ecdysis, InheritError, ListenStart};
use ecdysis::executioner::UpgradeError;
use ecdysis::path::SockPath;
use ecdysis::registry::{ListenerInfo, SockAddr, SockInfo};
use ecdysis::tokio_ecdysis::manager::{StopOnShutdown, TokioEcdysis, TokioEcdysisBuilder};
use ecdysis::tokio_ecdysis::monitor::{ExitMode, MonitorStep, QuitOp};
use ecdysis::tokio_ecdysis::trigger::{
    scan_outcome, ExitCondition, ExitReason, Trigger, TriggerPoll, TriggerReason, TriggerScan,
};
use tokio::signal::unix::SignalKind;

const ADDR: SockAddr = SockAddr::V4 { ip: 1, port: 80 };

fn path(text: &str) -> SockPath {
    SockPath::new(text.as_bytes().to_vec())
}

fn first() -> TokioEcdysis {
    TokioEcdysis::new(Ecdysis::new(Err(InheritError::NotAnUpgrade)).unwrap())
}

/// A builder with an upgrade signal, a stop signal, and a socket for partial stops.
fn builder() -> TokioEcdysisBuilder<&'static str> {
    let made: Result<TokioEcdysis, ()> = Ok(first());
    let mut b = TokioEcdysisBuilder::new(SignalKind::hangup(), made).unwrap_or_else(|_| panic!());
    assert_eq!(b.stop_on_signal(SignalKind::terminate(), Ok::<(), ()>(())), Ok(()));
    assert_eq!(b.partial_stop_on_socket(path("/stop"), Ok::<(), ()>(())), Ok(()));
    b
}

/// The manager with one socket in use.
fn with_socket(mut te: TokioEcdysis) -> TokioEcdysis {
    match te.inner.listen_tcp(ADDR) {
        ListenStart::Create(creating) => {
            let item = ListenerInfo { fd: 3, sock_info: SockInfo::Tcp(ADDR) };
            let adding = creating.created(Ok::<_, ()>(item)).unwrap_or_else(|_| panic!());
            assert_eq!(adding.finish(&mut te.inner, Ok::<i32, ()>(30)), Ok(()));
        }
        ListenStart::Adopt(_) => panic!("inherited"),
    }
    te
}

fn start(systemd: bool) -> (TokioEcdysis, MonitorStep<&'static str>) {
    let mut b = builder();
    if systemd {
        assert_eq!(b.enable_systemd_notifications(Ok::<_, ()>("line")), Ok(()));
    }
    b.set_pid_file(path("/run/pid"));
    let (_plan, te, upgrader) = b.ready();
    (with_socket(te), upgrader.monitor())
}

#[derive(Debug, PartialEq)]
enum Seen {
    Ready,
    Poll,
    Reloading,
    Upgrade(Vec<i32>),
    Pid(Vec<u8>),
    Forget,
    Quit(ExitCondition, Vec<i32>),
    Clean(usize),
    Stopping,
}

/// What the outside does: the triggers that fire, how upgrades end, and what fails.
struct World {
    fire: Vec<Result<(TriggerReason, ExitCondition), String>>,
    upgrades: Vec<Result<Result<(), UpgradeError>, String>>,
    fail_ready: bool,
    fail_reloading: bool,
    fail_stopping: bool,
    fail_stop_all: bool,
    fail_clean: Option<usize>,
}

fn world(fire: Vec<Result<(TriggerReason, ExitCondition), String>>) -> World {
    World {
        fire,
        upgrades: vec![],
        fail_ready: false,
        fail_reloading: false,
        fail_stopping: false,
        fail_stop_all: false,
        fail_clean: None,
    }
}

fn sent(fails: bool) -> Result<(), String> {
    if fails {
        Err("no systemd".to_string())
    } else {
        Ok(())
    }
}

fn live(
    systemd: bool,
    mut w: World,
) -> (Vec<Seen>, Result<(ExitMode<&'static str>, ExitReason), String>, TokioEcdysis) {
    let (mut te, mut step) = start(systemd);
    let mut seen = Vec::new();
    loop {
        let kept = step.keeps_connection();
        assert_eq!(kept, !matches!(
            step,
            MonitorStep::NotifyReady(_) | MonitorStep::Poll(_) | MonitorStep::Return(_)
        ));
        step = match step {
            MonitorStep::NotifyReady(k) => {
                assert_eq!(k.notifier, "line");
                seen.push(Seen::Ready);
                k.resume(sent(w.fail_ready), &te.inner)
            }
            MonitorStep::Poll(k) => {
                seen.push(Seen::Poll);
                k.resume(w.fire.remove(0), &mut te.inner)
            }
            MonitorStep::NotifyReloading(k) => {
                assert_eq!(k.notifier, "line");
                seen.push(Seen::Reloading);
                k.resume(sent(w.fail_reloading), &te.inner)
            }
            MonitorStep::Upgrade(k) => {
                seen.push(Seen::Upgrade(k.fds().iter().map(|l| l.fd).collect()));
                k.resume(w.upgrades.remove(0), &mut te.inner)
            }
            MonitorStep::WritePidFile(k) => {
                seen.push(Seen::Pid(k.pid_file().as_ref().unwrap().bytes.clone()));
                k.resume(&te.inner)
            }
            MonitorStep::ForgetStream(k) => {
                seen.push(Seen::Forget);
                k.resume(&mut te.inner)
            }
            MonitorStep::Quit(k) => {
                let mut ops = k.ops();
                let condition = match ops.pop() {
                    Some(QuitOp::StopListeners(condition)) => condition,
                    other => panic!("{:?}", other),
                };
                let close = ops.into_iter().map(|op| match op {
                    QuitOp::Close(fd) => fd,
                    other => panic!("{:?}", other),
                });
                seen.push(Seen::Quit(condition, close.collect()));
                k.resume(!w.fail_stop_all, &te.inner)
            }
            MonitorStep::CleanTrigger(k) => {
                seen.push(Seen::Clean(k.index()));
                let cleaned = if w.fail_clean == Some(k.index()) {
                    Err("unlink".to_string())
                } else {
                    Ok(())
                };
                k.resume(cleaned, &te.inner)
            }
            MonitorStep::NotifyStopping(k) => {
                assert_eq!(k.notifier, "line");
                seen.push(Seen::Stopping);
                k.resume(sent(w.fail_stopping), &te.inner)
            }
            MonitorStep::Return(r) => return (seen, r, te),
        }
    }
}

fn signal(kind: SignalKind, c: ExitCondition) -> Result<(TriggerReason, ExitCondition), String> {
    Ok((TriggerReason::Signal(kind), c))
}

fn connection(p: &str, c: ExitCondition) -> Result<(TriggerReason, ExitCondition), String> {
    Ok((TriggerReason::UnixStream(path(p)), c))
}

#[test]
fn a_full_stop_cleans_up_and_tells_systemd() {
    let (seen, r, te) =
        live(true, world(vec![signal(SignalKind::terminate(), ExitCondition::Stop)]));
    assert_eq!(
        seen,
        vec![
            Seen::Ready,
            Seen::Poll,
            Seen::Quit(ExitCondition::Stop, vec![30]),
            Seen::Clean(0),
            Seen::Clean(1),
            Seen::Clean(2),
            Seen::Stopping,
        ]
    );
    match r {
        Ok((ExitMode::FullStop, ExitReason::Signal(kind))) => {
            assert_eq!(kind, SignalKind::terminate())
        }
        other => panic!("{:?}", other),
    }
    assert!(te.inner.get_fds_for_child().is_empty());
}

#[test]
fn without_systemd_nobody_is_told() {
    let (seen, r, _) =
        live(false, world(vec![signal(SignalKind::terminate(), ExitCondition::Stop)]));
    assert_eq!(
        seen,
        vec![
            Seen::Poll,
            Seen::Quit(ExitCondition::Stop, vec![30]),
            Seen::Clean(0),
            Seen::Clean(1),
            Seen::Clean(2),
        ]
    );
    assert!(matches!(r, Ok((ExitMode::FullStop, _))));
}

#[test]
fn a_partial_stop_hands_the_notifier_to_the_caller() {
    let (seen, r, te) = live(true, world(vec![connection("/stop", ExitCondition::PartialStop)]));
    assert_eq!(
        seen,
        vec![
            Seen::Ready,
            Seen::Poll,
            Seen::Forget,
            Seen::Clean(0),
            Seen::Clean(1),
            Seen::Clean(2),
        ]
    );
    match r {
        Ok((ExitMode::PartialStopWithSystemd("line"), ExitReason::UnixListener(p))) => {
            assert_eq!(p.bytes, b"/stop".to_vec())
        }
        other => panic!("{:?}", other),
    }
    assert_eq!(te.inner.get_fds_for_child().len(), 1);
}

#[test]
fn a_partial_stop_without_systemd() {
    let (seen, r, te) =
        live(false, world(vec![signal(SignalKind::quit(), ExitCondition::PartialStop)]));
    assert_eq!(seen, vec![Seen::Poll, Seen::Clean(0), Seen::Clean(1), Seen::Clean(2)]);
    assert_eq!(te.inner.get_fds_for_child().len(), 1);
    assert!(matches!(r, Ok((ExitMode::PartialStop, ExitReason::Signal(_)))));
}

#[test]
fn an_upgrade_leaves_triggers_and_systemd_alone() {
    let mut w = world(vec![connection("/up", ExitCondition::Upgrade)]);
    w.upgrades = vec![Ok(Ok(()))];
    let (seen, r, te) = live(true, w);
    assert_eq!(
        seen,
        vec![
            Seen::Ready,
            Seen::Poll,
            Seen::Reloading,
            Seen::Upgrade(vec![30]),
            Seen::Quit(ExitCondition::Upgrade, vec![30]),
        ]
    );
    match r {
        Ok((ExitMode::Upgrade, ExitReason::UnixListener(p))) => {
            assert_eq!(p.bytes, b"/up".to_vec())
        }
        other => panic!("{:?}", other),
    }
    assert!(te.inner.get_fds_for_child().is_empty());
}

#[test]
fn a_failed_upgrade_starts_over() {
    let mut w = world(vec![
        signal(SignalKind::hangup(), ExitCondition::Upgrade),
        signal(SignalKind::hangup(), ExitCondition::Upgrade),
    ]);
    w.upgrades = vec![Ok(Err(UpgradeError::ChildTimeout)), Ok(Ok(()))];
    let (seen, r, _) = live(true, w);
    assert_eq!(
        seen,
        vec![
            Seen::Ready,
            Seen::Poll,
            Seen::Reloading,
            Seen::Upgrade(vec![30]),
            Seen::Pid(b"/run/pid".to_vec()),
            Seen::Ready,
            Seen::Poll,
            Seen::Reloading,
            Seen::Upgrade(vec![30]),
            Seen::Quit(ExitCondition::Upgrade, vec![30]),
        ]
    );
    assert!(matches!(r, Ok((ExitMode::Upgrade, _))));
}

#[test]
fn a_broken_trigger_shuts_down() {
    let (seen, r, _) = live(true, world(vec![Err("accept failed".to_string())]));
    assert_eq!(
        seen,
        vec![
            Seen::Ready,
            Seen::Poll,
            Seen::Clean(0),
            Seen::Clean(1),
            Seen::Clean(2),
            Seen::Stopping
        ]
    );
    assert_eq!(
        r.err().unwrap(),
        "Encountered error while polling triggers: accept failed"
    );
}

#[test]
fn an_upgrade_that_does_not_come_back_shuts_down() {
    let mut w = world(vec![signal(SignalKind::hangup(), ExitCondition::Upgrade)]);
    w.upgrades = vec![Err("channel closed".to_string())];
    let (seen, r, _) = live(false, w);
    assert_eq!(seen.last(), Some(&Seen::Clean(2)));
    assert_eq!(r.err().unwrap(), "Encountered a problem during upgrade: channel closed");
    let mut w = world(vec![signal(SignalKind::hangup(), ExitCondition::Upgrade)]);
    w.fail_reloading = true;
    let (seen, r, _) = live(true, w);
    assert_eq!(seen.last(), Some(&Seen::Stopping));
    assert_eq!(r.err().unwrap(), "Encountered a problem during upgrade: no systemd");
}

#[test]
fn errors_end_the_life_at_once() {
    let mut w = world(vec![]);
    w.fail_ready = true;
    let (seen, r, _) = live(true, w);
    assert_eq!(seen, vec![Seen::Ready]);
    assert_eq!(r.err().unwrap(), "no systemd");

    let mut w = world(vec![signal(SignalKind::terminate(), ExitCondition::Stop)]);
    w.fail_stop_all = true;
    let (seen, r, te) = live(true, w);
    assert_eq!(seen.last(), Some(&Seen::Quit(ExitCondition::Stop, vec![30])));
    assert_eq!(r.err().unwrap(), "Cannot stop supervised listeners!");
    assert!(te.inner.get_fds_for_child().is_empty());

    let mut w = world(vec![signal(SignalKind::terminate(), ExitCondition::Stop)]);
    w.fail_clean = Some(1);
    let (seen, r, _) = live(true, w);
    assert_eq!(seen.last(), Some(&Seen::Clean(1)));
    assert_eq!(r.err().unwrap(), "unlink");

    let mut w = world(vec![signal(SignalKind::terminate(), ExitCondition::Stop)]);
    w.fail_stopping = true;
    let (_, r, _) = live(true, w);
    assert_eq!(r.err().unwrap(), "no systemd");
}

fn pending() -> TriggerPoll {
    TriggerPoll::Pending
}

fn ready(kind: SignalKind) -> TriggerPoll {
    TriggerPoll::Ready(Ok(TriggerReason::Signal(kind)))
}

fn triggers() -> Vec<(Trigger, ExitCondition)> {
    vec![
        (Trigger::Signal(SignalKind::hangup()), ExitCondition::Upgrade),
        (Trigger::Signal(SignalKind::hangup()), ExitCondition::Stop),
        (Trigger::Signal(SignalKind::terminate()), ExitCondition::Stop),
        (Trigger::Uds(path("/s")), ExitCondition::PartialStop),
    ]
}

#[test]
fn the_first_ready_trigger_decides() {
    let hup = SignalKind::hangup();
    let term = SignalKind::terminate();
    match scan_outcome(&triggers(), vec![ready(hup), ready(hup), pending(), pending()]) {
        TriggerScan::Fired(Ok((TriggerReason::Signal(kind), c))) => {
            assert_eq!((kind, c), (hup, ExitCondition::Upgrade))
        }
        other => panic!("{:?}", other),
    }
    match scan_outcome(&triggers(), vec![pending(), pending(), ready(term), ready(hup)]) {
        TriggerScan::Fired(Ok((TriggerReason::Signal(kind), c))) => {
            assert_eq!((kind, c), (term, ExitCondition::Stop))
        }
        other => panic!("{:?}", other),
    }
    let broken = TriggerPoll::Ready(Err("EBADF".to_string()));
    match scan_outcome(&triggers(), vec![pending(), broken, ready(term), pending()]) {
        TriggerScan::Fired(Err(e)) => assert_eq!(e, "EBADF"),
        other => panic!("{:?}", other),
    }
    let quiet = vec![pending(), pending(), pending(), pending()];
    assert!(matches!(scan_outcome(&triggers(), quiet), TriggerScan::Pending));
    assert!(matches!(scan_outcome(&vec![], vec![]), TriggerScan::Pending));
}

#[test]
fn the_monitor_looks_at_its_triggers_in_order() {
    let (_, step) = start(false);
    let polling = match step {
        MonitorStep::Poll(k) => k,
        _ => panic!("not waiting"),
    };
    assert!(matches!(polling.scan(), TriggerScan::Poll(0)));
    assert!(matches!(polling.scanned(0, pending()), TriggerScan::Poll(1)));
    assert!(matches!(polling.scanned(2, pending()), TriggerScan::Pending));
    let fired = TriggerPoll::Ready(Ok(TriggerReason::UnixStream(path("/stop"))));
    assert!(matches!(
        polling.scanned(2, fired),
        TriggerScan::Fired(Ok((TriggerReason::UnixStream(_), ExitCondition::PartialStop)))
    ));
}

#[test]
fn exit_reasons_can_be_copied() {
    let reason = TriggerReason::UnixStream(path("/s")).exit_reason();
    match reason.clone() {
        ExitReason::UnixListener(p) => assert_eq!(p.bytes, b"/s".to_vec()),
        ExitReason::Signal(_) => panic!("a signal"),
    }
    let signal = TriggerReason::Signal(SignalKind::hangup()).exit_reason();
    assert!(matches!(signal.clone(), ExitReason::Signal(k) if k == SignalKind::hangup()));
}

#[test]
fn failures_leave_the_builder_as_it_was() {
    let failed: Result<TokioEcdysisBuilder<&str>, &str> =
        TokioEcdysisBuilder::new(SignalKind::hangup(), Err("signal"));
    assert!(matches!(failed, Err("signal")));
    let mut b = builder();
    assert_eq!(b.partial_stop_on_signal(SignalKind::quit(), Err("signal")), Err("signal"));
    assert_eq!(b.upgrade_on_socket(path("/up"), Err("bind")), Err("bind"));
    assert_eq!(b.stop_on_socket(path("/down"), Err("bind")), Err("bind"));
    assert_eq!(b.enable_systemd_notifications(Err("no socket")), Err("no socket"));
    assert!(b.extend_systemd_timeouts().is_none());
    let (_, _, upgrader) = b.ready();
    match upgrader.monitor() {
        MonitorStep::Poll(k) => assert!(matches!(k.scanned(2, pending()), TriggerScan::Pending)),
        _ => panic!("not waiting"),
    }
}

#[test]
fn triggers_are_added_in_order() {
    let mut b = builder();
    assert_eq!(b.partial_stop_on_signal(SignalKind::quit(), Ok::<(), ()>(())), Ok(()));
    assert_eq!(b.upgrade_on_socket(path("/up"), Ok::<(), ()>(())), Ok(()));
    assert_eq!(b.stop_on_socket(path("/down"), Ok::<(), ()>(())), Ok(()));
    let (_, _, upgrader) = b.ready();
    let polling = match upgrader.monitor() {
        MonitorStep::Poll(k) => k,
        _ => panic!("not waiting"),
    };
    let mut actions = Vec::new();
    for i in 0..6 {
        match polling.scanned(i, ready(SignalKind::hangup())) {
            TriggerScan::Fired(Ok((_, c))) => actions.push(c),
            other => panic!("{:?}", other),
        }
    }
    assert_eq!(
        actions,
        vec![
            ExitCondition::Upgrade,
            ExitCondition::Stop,
            ExitCondition::PartialStop,
            ExitCondition::PartialStop,
            ExitCondition::Upgrade,
            ExitCondition::Stop,
        ]
    );
}

#[test]
fn the_line_to_systemd_can_be_used_while_setting_up() {
    let mut b = builder();
    assert_eq!(b.enable_systemd_notifications(Ok::<_, ()>("line")), Ok(()));
    match b.extend_systemd_timeouts() {
        Some(line) => assert_eq!(*line, "line"),
        None => panic!("no line"),
    }
}

#[test]
fn sockets_of_triggers_go_with_the_process() {
    let mut b = builder();
    let supervised = b.listen_for_trigger(path("/up"));
    assert_eq!(supervised.stop_on_shutdown, StopOnShutdown::Yes);
    assert!(matches!(supervised.start, ListenStart::Create(_)));
}

#[test]
fn the_manager_opens_sockets_before_and_after_readiness() {
    let inherited = vec![
        ListenerInfo { fd: 10, sock_info: SockInfo::Udp(ADDR) },
        ListenerInfo { fd: 11, sock_info: SockInfo::Tcp(ADDR) },
        ListenerInfo { fd: 12, sock_info: SockInfo::Tcp(ADDR) },
    ];
    let te = TokioEcdysis::new(Ecdysis::new(Ok(inherited)).unwrap());
    let mut b: TokioEcdysisBuilder<()> =
        TokioEcdysisBuilder::new(SignalKind::hangup(), Ok::<_, ()>(te))
            .unwrap_or_else(|_| panic!());
    assert!(b.deref().is_child());
    let supervised = b.deref_mut().listen_tcp(StopOnShutdown::No, ADDR);
    assert_eq!(supervised.stop_on_shutdown, StopOnShutdown::No);
    match supervised.start {
        ListenStart::Adopt(k) => {
            let found = k.finish(&mut b.deref_mut().inner, Ok::<i32, ()>(20));
            assert_eq!(found, 11)
        }
        ListenStart::Create(_) => panic!("not inherited"),
    }
    let (plan, mut te, _) = b.ready();
    assert_eq!(plan.close, vec![10, 12]);
    assert_eq!(plan.notify, Some(*b"OK"));
    assert!(te.std_ecdysis().get_fds_for_child()[0].fd == 20);
    for supervised in [
        te.listen_unix(StopOnShutdown::Yes, path("/a")),
        te.listen_unix_seqpacket(StopOnShutdown::Yes, path("/a")),
        te.build_listen_tcp(StopOnShutdown::Yes, ADDR),
        te.build_stream_udp(StopOnShutdown::Yes, ADDR),
        te.build_stoppable_socket_udp(StopOnShutdown::Yes, ADDR),
    ] {
        assert_eq!(supervised.stop_on_shutdown, StopOnShutdown::Yes);
        assert!(matches!(supervised.start, ListenStart::Create(_)));
    }
    assert!(te.unix_datagram_pair("x".to_string()).to_parent.is_none());
}

#[test]
fn a_partial_stop_that_fails_is_silent_and_closes_nothing() {
    let mut w = world(vec![connection("/stop", ExitCondition::PartialStop)]);
    w.fail_clean = Some(1);
    let (seen, r, te) = live(true, w);
    assert_eq!(
        seen,
        vec![Seen::Ready, Seen::Poll, Seen::Forget, Seen::Clean(0), Seen::Clean(1)]
    );
    assert_eq!(r.err().unwrap(), "unlink");
    assert_eq!(te.inner.get_fds_for_child().len(), 1);
}
