use ecdysis::decimal::decimal;
use ecdysis::executioner::{
    child_end, proc_wait, send_fds, upgrade, upgrade_inner, upgrade_to, wait_child, wait_ready,
    watch_outcome, IoError, Program, TryWait, UpgradeEnv, UpgradeError, UpgradeFinished,
    UpgradeFlag, UpgradePipes, UpgradeSeen, UpgradeWaiting, WatchNext, WatchRound, WatchStep, CHILD_POLL_MILLIS,
    CHILD_POLL_NANOS, READY_MESSAGE,
};
use ecdysis::path::SockPath;
use ecdysis::registry::{FdOp, ListenerInfo, SockAddr, SockInfo};

fn io_error(debug: &str) -> IoError {
    IoError { debug: debug.to_string(), display: "display".to_string() }
}

fn listeners() -> Vec<ListenerInfo> {
    let addr = SockAddr::V4 { ip: 1, port: 80 };
    vec![
        ListenerInfo { fd: 20, sock_info: SockInfo::Tcp(addr) },
        ListenerInfo { fd: 22, sock_info: SockInfo::Udp(addr) },
    ]
}

fn lowered() -> UpgradeFlag {
    UpgradeFlag { upgrading: false }
}

fn message(r: &UpgradeFinished) -> String {
    match r {
        Ok(()) => "ok".to_string(),
        Err(e) => e.message(),
    }
}

fn env() -> UpgradeEnv {
    UpgradeEnv {
        upgrade: "UP".to_string(),
        upgrade_true: "yes".to_string(),
        pipe_fds: "FDS".to_string(),
        pipe_ready: "READY".to_string(),
    }
}

fn pipes(flag: &mut UpgradeFlag, exec: Option<SockPath>) -> UpgradePipes {
    let start = match exec {
        None => upgrade(flag, listeners()),
        Some(path) => upgrade_to(flag, listeners(), path),
    };
    let half = start.ok().unwrap().listener_pipe(flag, child_end(Ok(5))).ok().unwrap();
    half.ready_pipe(flag, child_end(Ok(6))).ok().unwrap()
}

fn waiting(flag: &mut UpgradeFlag) -> UpgradeWaiting {
    let pipes = pipes(flag, None);
    pipes.spawned(flag, Ok(())).1.ok().unwrap()
}

fn cwd() -> SockPath {
    SockPath::new(b"/srv".to_vec())
}

fn args(words: &[&str]) -> Vec<String> {
    words.iter().map(|w| w.to_string()).collect()
}

#[test]
fn decimal_text_agrees_with_std() {
    for n in [0, 1, 9, 10, 11, 99, 100, 12345, i32::MAX, -1, -10, i32::MIN] {
        assert_eq!(decimal(n), format!("{}", n));
    }
}

#[test]
fn errors_have_their_texts() {
    assert_eq!(UpgradeError::ChildExit.message(), "child exited unexpectedly");
    assert_eq!(
        UpgradeError::ChildTimeout.message(),
        "timed out waiting for ready signal from child"
    );
    assert_eq!(
        UpgradeError::NotStarted("why".to_string()).message(),
        "upgrade not started: why"
    );
    assert_eq!(
        UpgradeError::SerializationError("Io".to_string()).message(),
        "serialization error: Io"
    );
}

#[test]
fn an_io_error_means_not_started() {
    let e = UpgradeError::from(io_error("Os { code: 24 }"));
    assert_eq!(e.message(), "upgrade not started: Os { code: 24 }");
}

#[test]
fn only_one_upgrade_runs_at_a_time() {
    let mut flag = lowered();
    assert!(upgrade(&mut flag, listeners()).is_ok());
    assert!(flag.upgrading);
    match upgrade(&mut flag, listeners()) {
        Err(e) => assert_eq!(e.message(), "upgrade not started: Already in upgrade"),
        Ok(_) => panic!("started twice"),
    }
    assert!(flag.upgrading);
}

#[test]
fn the_ends_for_the_child_outlive_the_exec() {
    assert_eq!(child_end(Ok(5)).ok().unwrap().op(), FdOp::UnsetCloexec(5));
    match child_end(Err(io_error("EMFILE"))) {
        Err(e) => assert_eq!(e.message(), "upgrade not started: EMFILE"),
        Ok(_) => panic!("made"),
    }
}

#[test]
fn the_child_is_launched_like_the_parent() {
    let plan = pipes(&mut lowered(), None).exec_upgraded(args(&["prog", "-x", "y"]), cwd(), &env());
    assert!(matches!(plan.program, Program::Argv0(ref p) if p == "prog"));
    assert_eq!(plan.args, args(&["-x", "y"]));
    assert_eq!(plan.cwd.bytes, b"/srv".to_vec());
    let vars: Vec<(&str, &str)> =
        plan.env.iter().map(|(k, v)| (k.as_str(), v.as_str())).collect();
    assert_eq!(vars, vec![("UP", "yes"), ("FDS", "5"), ("READY", "6")]);
    assert_eq!(plan.env_remove, args(&["LISTEN_PID", "LISTEN_FDNAMES", "LISTEN_FDS"]));
    assert_eq!(plan.pre_exec, vec![FdOp::UnsetCloexec(20), FdOp::UnsetCloexec(22)]);
}

#[test]
fn another_program_can_be_launched() {
    let staged = SockPath::new(b"/opt/staged".to_vec());
    let pipes = pipes(&mut lowered(), Some(staged));
    let plan = pipes.exec_upgraded(args(&["prog", "-x"]), cwd(), &env());
    match plan.program {
        Program::Override(path) => assert_eq!(path.bytes, b"/opt/staged".to_vec()),
        Program::Argv0(_) => panic!("the running program"),
    }
    assert_eq!(plan.args, args(&["-x"]));
    assert_eq!(plan.pre_exec.len(), 2);
}

#[test]
fn the_parent_closes_the_ends_of_the_child() {
    let mut flag = lowered();
    let (close, waiting) = pipes(&mut flag, None).spawned(&mut flag, Ok(()));
    assert!(flag.upgrading);
    assert_eq!(close, [5, 6]);
    let fds: Vec<i32> = waiting.ok().unwrap().fds().iter().map(|l| l.fd).collect();
    assert_eq!(fds, vec![20, 22]);
    let mut flag = lowered();
    let (close, waiting) = pipes(&mut flag, None).spawned(&mut flag, Err(io_error("ENOENT")));
    assert!(!flag.upgrading);
    assert_eq!(close, [5, 6]);
    match waiting {
        Err(e) => assert_eq!(e.message(), "upgrade not started: ENOENT"),
        Ok(_) => panic!("launched"),
    }
}

#[test]
fn the_child_is_ready_when_it_says_so() {
    assert_eq!(&READY_MESSAGE, b"OK");
    assert!(wait_ready(Some(READY_MESSAGE)).is_ok());
    for read in [None, Some(*b"ok"), Some(*b"OX"), Some(*b"XK"), Some([0, 0])] {
        assert_eq!(message(&wait_ready(read)), "child exited unexpectedly");
    }
}

#[test]
fn sending_reports_the_serializer() {
    assert!(send_fds(Ok(())).is_ok());
    assert_eq!(
        message(&send_fds(Err("SizeLimit".to_string()))),
        "serialization error: SizeLimit"
    );
}

#[test]
fn a_child_that_cannot_be_asked_is_gone() {
    assert!(proc_wait(TryWait::Running).is_ok());
    assert_eq!(message(&proc_wait(TryWait::Exited)), "child exited unexpectedly");
    assert_eq!(message(&proc_wait(TryWait::Failed)), "child exited unexpectedly");
}

const START: u128 = 7_000_000_000;

fn round(elapsed: u128, child: TryWait, upgrading: bool, child_again: TryWait) -> WatchRound {
    WatchRound { now_nanos: START + elapsed, child, upgrading, child_again }
}

#[test]
fn the_watch_pauses_and_looks() {
    assert_eq!(CHILD_POLL_MILLIS as u128 * 1_000_000, CHILD_POLL_NANOS);
    let paused = match wait_child(START).round(START + 4_999_999_999) {
        WatchStep::Pause(paused) => paused,
        WatchStep::Kill(_) => panic!("too early"),
    };
    let running = paused.polled(TryWait::Running).ok().unwrap();
    let next = match running.flag(&UpgradeFlag { upgrading: true }) {
        WatchNext::Again(next) => next,
        WatchNext::Last => panic!("not over"),
    };
    match next.round(START + 5_000_000_000) {
        WatchStep::Kill(e) => {
            assert_eq!(e.message(), "timed out waiting for ready signal from child")
        }
        WatchStep::Pause(_) => panic!("too late"),
    }
}

#[test]
fn a_clock_that_was_set_back_does_not_end_the_watch() {
    assert!(matches!(wait_child(START).round(0), WatchStep::Pause(_)));
    assert!(matches!(wait_child(0).round(START), WatchStep::Kill(UpgradeError::ChildTimeout)));
}

#[test]
fn the_watch_times_out_after_ten_pauses() {
    let mut rounds: Vec<WatchRound> = Vec::new();
    for i in 0..10u128 {
        rounds.push(round(i * CHILD_POLL_NANOS, TryWait::Running, true, TryWait::Running));
        assert!(watch_outcome(START, &rounds).is_none());
    }
    rounds.push(round(10 * CHILD_POLL_NANOS, TryWait::Running, true, TryWait::Running));
    match watch_outcome(START, &rounds) {
        Some(r) => assert_eq!(message(&r), "timed out waiting for ready signal from child"),
        None => panic!("still watching"),
    }
}

#[test]
fn the_watch_sees_the_child_exit() {
    let rounds = vec![
        round(0, TryWait::Running, true, TryWait::Running),
        round(500_000_000, TryWait::Exited, true, TryWait::Running),
    ];
    match watch_outcome(START, &rounds) {
        Some(r) => assert_eq!(message(&r), "child exited unexpectedly"),
        None => panic!("still watching"),
    }
}

#[test]
fn the_watch_looks_once_more_when_the_upgrade_is_over() {
    let lives = vec![round(0, TryWait::Running, false, TryWait::Running)];
    assert!(matches!(watch_outcome(START, &lives), Some(Ok(()))));
    let dies = vec![round(0, TryWait::Running, false, TryWait::Exited)];
    assert!(matches!(watch_outcome(START, &dies), Some(Err(UpgradeError::ChildExit))));
}

fn seen() -> UpgradeSeen {
    UpgradeSeen {
        listener_pipe: Ok(5),
        ready_pipe: Ok(6),
        launch: Ok(()),
        ready: Some(Ok(())),
        watch: Ok(()),
    }
}

#[test]
fn an_upgrade_succeeds() {
    let mut flag = lowered();
    let (r, closed) = upgrade_inner(&mut flag, listeners(), None, seen());
    assert_eq!(message(&r), "ok");
    assert_eq!(closed, vec![5, 6]);
    assert!(!flag.upgrading);
}

#[test]
fn the_fate_of_the_child_outweighs_its_word() {
    let mut flag = lowered();
    let gone = UpgradeSeen { watch: Err(UpgradeError::ChildExit), ..seen() };
    let (r, _) = upgrade_inner(&mut flag, listeners(), None, gone);
    assert_eq!(message(&r), "child exited unexpectedly");
    let late = UpgradeSeen {
        ready: Some(Err(UpgradeError::ChildExit)),
        watch: Err(UpgradeError::ChildTimeout),
        ..seen()
    };
    let (r, _) = upgrade_inner(&mut flag, listeners(), None, late);
    assert_eq!(message(&r), "timed out waiting for ready signal from child");
    assert!(!flag.upgrading);
}

#[test]
fn a_broken_wait_for_readiness_is_a_failure() {
    let mut flag = lowered();
    let broken = UpgradeSeen { ready: None, ..seen() };
    let (r, closed) = upgrade_inner(&mut flag, listeners(), None, broken);
    assert_eq!(message(&r), "child exited unexpectedly");
    assert_eq!(closed, vec![5, 6]);
}

#[test]
fn an_upgrade_that_cannot_start_closes_what_it_made() {
    let mut flag = lowered();
    let no_pipe = UpgradeSeen { listener_pipe: Err(io_error("A")), ..seen() };
    let (r, closed) = upgrade_inner(&mut flag, listeners(), None, no_pipe);
    assert_eq!(message(&r), "upgrade not started: A");
    assert!(closed.is_empty());
    assert!(!flag.upgrading);

    let one_pipe = UpgradeSeen { ready_pipe: Err(io_error("B")), ..seen() };
    let (r, closed) = upgrade_inner(&mut flag, listeners(), None, one_pipe);
    assert_eq!(message(&r), "upgrade not started: B");
    assert_eq!(closed, vec![5]);
    assert!(!flag.upgrading);

    let no_child = UpgradeSeen { launch: Err(io_error("C")), ..seen() };
    let (r, closed) = upgrade_inner(&mut flag, listeners(), None, no_child);
    assert_eq!(message(&r), "upgrade not started: C");
    assert_eq!(closed, vec![5, 6]);
    assert!(!flag.upgrading);
}

#[test]
fn a_second_upgrade_is_refused() {
    let mut flag = UpgradeFlag { upgrading: true };
    let (r, closed) = upgrade_inner(&mut flag, listeners(), None, seen());
    assert_eq!(message(&r), "upgrade not started: Already in upgrade");
    assert!(closed.is_empty());
    assert!(flag.upgrading);
}

#[test]
fn an_upgrade_that_failed_can_be_tried_again() {
    let mut flag = lowered();
    let failures = [
        UpgradeSeen { listener_pipe: Err(io_error("A")), ..seen() },
        UpgradeSeen { ready_pipe: Err(io_error("B")), ..seen() },
        UpgradeSeen { launch: Err(io_error("C")), ..seen() },
        UpgradeSeen { ready: None, watch: Err(UpgradeError::ChildTimeout), ..seen() },
        UpgradeSeen { watch: Err(UpgradeError::ChildExit), ..seen() },
    ];
    for failure in failures {
        assert!(upgrade_inner(&mut flag, listeners(), None, failure).0.is_err());
        let (r, closed) = upgrade_inner(&mut flag, listeners(), None, seen());
        assert!(r.is_ok());
        assert_eq!(closed, vec![5, 6]);
    }
}

#[test]
fn readiness_ends_the_watch() {
    let mut flag = lowered();
    let settled = waiting(&mut flag).ready_joined(&mut flag, Some(Ok(())));
    assert!(!flag.upgrading);
    // Another upgrade may have begun since.
    flag.upgrading = true;
    assert!(settled.child_joined(&mut flag, Ok(())).is_ok());
    assert!(flag.upgrading);
}

#[test]
fn a_child_that_is_not_ready_is_watched_to_its_end() {
    for ready in [None, Some(Err(UpgradeError::ChildExit))] {
        let mut flag = lowered();
        let settled = waiting(&mut flag).ready_joined(&mut flag, ready);
        assert!(flag.upgrading);
        let mut rounds: Vec<WatchRound> = Vec::new();
        for i in 0..11u128 {
            let upgrading = flag.upgrading;
            rounds.push(round(i * CHILD_POLL_NANOS, TryWait::Running, upgrading, TryWait::Running));
        }
        let fate = watch_outcome(START, &rounds).unwrap();
        let r = settled.child_joined(&mut flag, fate);
        assert_eq!(message(&r), "timed out waiting for ready signal from child");
        assert!(!flag.upgrading);
    }
}
