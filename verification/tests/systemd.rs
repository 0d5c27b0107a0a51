use ecdysis::ecdysis::{Ecdysis, InheritError};
use ecdysis::path::SockPath;
use ecdysis::registry::{FdOp, ListenerInfo, SockAddr, SockInfo};
use ecdysis::tokio_ecdysis::manager::{StopOnShutdown, TokioEcdysis, TokioEcdysisBuilder};
use ecdysis::tokio_ecdysis::systemd::{
    incorrect_message, not_found_message, SystemdRead, SystemdSeen, SystemdSocketError,
    SystemdSocketsReadError, SystemdStart,
};
use tokio::signal::unix::SignalKind;

const ADDR: SockAddr = SockAddr::V4 { ip: 1, port: 80 };
const OTHER: SockAddr = SockAddr::V4 { ip: 1, port: 81 };

fn item(fd: i32, sock_info: SockInfo) -> ListenerInfo {
    ListenerInfo { fd, sock_info }
}

fn first() -> TokioEcdysis {
    TokioEcdysis::new(Ecdysis::new(Err(InheritError::NotAnUpgrade)).unwrap())
}

fn activated() -> TokioEcdysis {
    let mut te = first();
    assert!(te.systemd_sockets_read(Ok::<(), ()>(())).is_ok());
    te
}

fn child(fds: Vec<ListenerInfo>) -> TokioEcdysis {
    TokioEcdysis::new(Ecdysis::new(Ok(fds)).unwrap())
}

fn seen(fd: i32, sock_info: SockInfo, dup: i32) -> SystemdSeen<&'static str> {
    SystemdSeen { found: Ok(item(fd, sock_info)), dup: Ok(dup) }
}

fn name() -> String {
    "web".to_string()
}

#[test]
fn sockets_of_systemd_are_read_once_and_by_the_first_process() {
    let mut te = first();
    assert!(matches!(te.read_systemd_sockets::<()>(), Ok(SystemdRead::Read)));
    assert!(matches!(
        te.systemd_sockets_read(Err("LISTEN_FDS")),
        Err(SystemdSocketsReadError::Read("LISTEN_FDS"))
    ));
    assert!(matches!(te.read_systemd_sockets::<()>(), Ok(SystemdRead::Read)));
    assert!(te.systemd_sockets_read(Ok::<(), ()>(())).is_ok());
    assert!(matches!(
        te.read_systemd_sockets::<()>(),
        Err(SystemdSocketsReadError::DuplicateSystemdSocketsRead)
    ));
    assert!(matches!(child(vec![]).read_systemd_sockets::<()>(), Ok(SystemdRead::Skip)));
    let b: TokioEcdysisBuilder<()> =
        TokioEcdysisBuilder::new(SignalKind::hangup(), Ok::<_, ()>(te))
            .unwrap_or_else(|_| panic!());
    assert!(b.read_systemd_sockets::<()>().is_err());
}

#[test]
fn sockets_of_systemd_have_to_be_read_first() {
    let r = first().systemd_outcome(name(), SockInfo::Tcp(ADDR), seen(3, SockInfo::Tcp(ADDR), 30));
    assert!(matches!(r, Err(SystemdSocketError::SystemdSocketsNotInitialized)));
}

#[test]
fn a_socket_of_systemd_is_found_and_registered() {
    let mut te = activated();
    let r = te.systemd_outcome(name(), SockInfo::Tcp(ADDR), seen(3, SockInfo::Tcp(ADDR), 30));
    assert!(matches!(r, Ok(3)));
    assert!(te.inner.get_fds_for_child() == vec![item(30, SockInfo::Tcp(ADDR))]);
}

#[test]
fn a_socket_of_systemd_has_to_be_the_expected_one() {
    let mut te = activated();
    let r = te.systemd_outcome(name(), SockInfo::Tcp(ADDR), seen(3, SockInfo::Tcp(OTHER), 30));
    match r {
        Err(SystemdSocketError::SockInfoIncorrect { found, expected }) => {
            assert!(found == SockInfo::Tcp(OTHER));
            assert!(expected == SockInfo::Tcp(ADDR));
        }
        other => panic!("{:?}", other),
    }
    assert!(te.inner.get_fds_for_child().is_empty());
}

#[test]
fn errors_from_outside_are_passed_on() {
    let mut te = activated();
    let unknown = SystemdSeen { found: Err("no such name"), dup: Ok(30) };
    let r = te.systemd_outcome(name(), SockInfo::Tcp(ADDR), unknown);
    assert!(matches!(r, Err(SystemdSocketError::Other("no such name"))));
    let full = SystemdSeen { found: Ok(item(3, SockInfo::Tcp(ADDR))), dup: Err("EMFILE") };
    let r = te.systemd_outcome(name(), SockInfo::Tcp(ADDR), full);
    assert!(matches!(r, Err(SystemdSocketError::Other("EMFILE"))));
    assert!(te.inner.get_fds_for_child().is_empty());
}

#[test]
fn a_child_inherits_sockets_of_systemd() {
    let mut te = child(vec![item(10, SockInfo::Udp(ADDR))]);
    let ignored = seen(99, SockInfo::Tcp(OTHER), 20);
    assert!(matches!(te.systemd_outcome(name(), SockInfo::Udp(ADDR), ignored), Ok(10)));
    assert!(te.inner.get_fds_for_child() == vec![item(20, SockInfo::Udp(ADDR))]);
}

#[test]
fn a_child_without_the_socket_gets_an_error() {
    let mut te = child(vec![item(10, SockInfo::Udp(ADDR))]);
    let r = te.systemd_outcome(name(), SockInfo::Tcp(ADDR), seen(3, SockInfo::Tcp(ADDR), 30));
    match r {
        Err(SystemdSocketError::SocketNotFoundInChildRegistry(info)) => {
            assert!(info == SockInfo::Tcp(ADDR))
        }
        other => panic!("{:?}", other),
    }
    let no_dup = SystemdSeen { found: Ok(item(3, SockInfo::Udp(ADDR))), dup: Err("EMFILE") };
    let r = te.systemd_outcome(name(), SockInfo::Udp(ADDR), no_dup);
    assert!(matches!(r, Ok(10)));
    assert!(te.inner.get_fds_for_child().is_empty());
}

#[test]
fn a_socket_of_systemd_survives_the_first_process() {
    let mut te = activated();
    let r = te.systemd_outcome(name(), SockInfo::Tcp(ADDR), seen(3, SockInfo::Tcp(ADDR), 30));
    assert!(matches!(r, Ok(3)));
    let mut next = child(te.inner.get_fds_for_child());
    let r = next.systemd_outcome(name(), SockInfo::Tcp(ADDR), seen(9, SockInfo::Tcp(OTHER), 31));
    assert!(matches!(r, Ok(30)));
}

#[test]
fn each_function_looks_for_its_own_kind() {
    let path = || SockPath::new(b"/s".to_vec());
    let mut te = child(vec![
        item(10, SockInfo::Unix(Some(path()))),
        item(11, SockInfo::Tcp(ADDR)),
        item(12, SockInfo::Udp(ADDR)),
        item(13, SockInfo::Udp(OTHER)),
    ]);
    let ops = |start: SystemdStart| match start {
        SystemdStart::Adopt(k) => k.ops(),
        SystemdStart::Find(_) => panic!("not inherited"),
    };
    let unix = te.systemd_listen_unix::<()>(StopOnShutdown::Yes, name(), path()).ok().unwrap();
    assert_eq!(unix.stop_on_shutdown, StopOnShutdown::Yes);
    assert_eq!(ops(unix.start), [FdOp::SetCloexec(10), FdOp::Dup(10)]);
    let tcp = te.systemd_listen_tcp::<()>(StopOnShutdown::No, name(), ADDR).ok().unwrap();
    assert_eq!(tcp.stop_on_shutdown, StopOnShutdown::No);
    assert_eq!(ops(tcp.start), [FdOp::SetCloexec(11), FdOp::Dup(11)]);
    let udp = te.systemd_socket_udp::<()>(name(), ADDR).ok().unwrap();
    assert_eq!(ops(udp), [FdOp::SetCloexec(12), FdOp::Dup(12)]);
    let stream = te.systemd_stream_udp::<()>(StopOnShutdown::No, name(), OTHER).ok().unwrap();
    assert_eq!(ops(stream.start), [FdOp::SetCloexec(13), FdOp::Dup(13)]);
}

#[test]
fn the_first_process_asks_by_name() {
    let mut te = activated();
    let start = te.systemd_socket_udp::<()>(name(), ADDR).ok().unwrap();
    let finding = match start {
        SystemdStart::Find(finding) => finding,
        SystemdStart::Adopt(_) => panic!("inherited"),
    };
    assert_eq!(finding.name(), "web");
    let adding = finding.found(Ok::<_, ()>(item(3, SockInfo::Udp(ADDR)))).ok().unwrap();
    assert_eq!(adding.op(), FdOp::Dup(3));
    assert!(adding.finish(&mut te, Ok::<i32, ()>(30)).is_ok());
    assert!(te.inner.get_fds_for_child() == vec![item(30, SockInfo::Udp(ADDR))]);
}

#[test]
fn errors_on_sockets_have_their_texts() {
    assert_eq!(
        incorrect_message("Tcp(1)", "Udp(2)"),
        "systemd sock info Tcp(1) does not match expected sock info Udp(2)"
    );
    assert_eq!(not_found_message("Tcp(1)"), "socket not found with SockInfo Tcp(1)");
}
