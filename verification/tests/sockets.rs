use ecdysis::ecdysis::{
    domain_for_address, Domain, Ecdysis, InheritError, ListenEnd, ListenSeen,
    ListenStart, NewSocket, ReadyOp,
};
use ecdysis::executioner::{wait_ready, UpgradeError, UpgradeFlag};
use ecdysis::path::SockPath;
use ecdysis::registry::{FdOp, ListenerInfo, SockAddr, SockInfo};

const V4: SockAddr = SockAddr::V4 { ip: 0x7f00_0001, port: 8080 };
const V4_ANY: SockAddr = SockAddr::V4 { ip: 0x7f00_0001, port: 0 };
const V6: SockAddr = SockAddr::V6 { ip: 1, port: 8080, flowinfo: 0, scope_id: 0 };

fn path(text: &str) -> SockPath {
    SockPath::new(text.as_bytes().to_vec())
}

fn item(fd: i32, sock_info: SockInfo) -> ListenerInfo {
    ListenerInfo { fd, sock_info }
}

fn first() -> Ecdysis {
    Ecdysis::new(Err(InheritError::NotAnUpgrade)).unwrap()
}

fn child(fds: Vec<ListenerInfo>) -> Ecdysis {
    Ecdysis::new(Ok(fds)).unwrap()
}

fn tcp_built(addr: SockAddr) -> NewSocket {
    NewSocket::TcpBuilt { domain: domain_for_address(addr), addr }
}

fn all_ok(adopt: i32, made: ListenerInfo, add: i32) -> ListenSeen<&'static str> {
    ListenSeen { adopt_dup: Ok(adopt), created: Ok(made), add_dup: Ok(add) }
}

#[test]
fn a_process_knows_whether_it_is_a_child() {
    assert!(!first().is_child());
    assert!(child(vec![]).is_child());
    let broken = Ecdysis::new(Err(InheritError::Environment("no pipe".to_string())));
    assert!(matches!(broken, Err(1)));
}

#[test]
fn the_family_follows_the_address() {
    assert_eq!(domain_for_address(V4), Domain::Ipv4);
    assert_eq!(domain_for_address(V6), Domain::Ipv6);
}

#[test]
fn readiness_closes_what_nobody_wanted_and_tells_the_parent_once() {
    let mut e = child(vec![item(10, SockInfo::Tcp(V4)), item(11, SockInfo::Udp(V4))]);
    e.set_pid_file(path("/run/p.pid"));
    match e.listen_tcp(V4) {
        ListenStart::Adopt(adopting) => {
            assert_eq!(adopting.finish(&mut e, Ok::<i32, ()>(20)), 10)
        }
        ListenStart::Create(_) => panic!("not inherited"),
    }
    let plan = e.ready();
    assert_eq!(plan.close, vec![11]);
    assert_eq!(plan.pid_file.as_ref().unwrap().bytes, b"/run/p.pid".to_vec());
    assert_eq!(plan.notify, Some(*b"OK"));
    assert!(wait_ready(plan.notify).is_ok());
    match &plan.ops()[..] {
        [ReadyOp::Close(11), ReadyOp::WritePid(p), ReadyOp::Notify(message)] => {
            assert_eq!(p.bytes, b"/run/p.pid".to_vec());
            assert_eq!(message, b"OK");
        }
        other => panic!("{:?}", other),
    }
    assert_eq!(plan.outcome(Err("EPIPE")), Err("EPIPE"));
    assert_eq!(plan.outcome(Ok::<(), &str>(())), Ok(()));
    let again = e.ready();
    assert!(again.close.is_empty());
    assert_eq!(again.notify, None);
    assert_eq!(again.outcome(Err("unasked")), Ok(()));
}

#[test]
fn a_first_process_tells_nobody() {
    let mut e = first();
    let plan = e.ready();
    assert!(plan.ops().is_empty());
    assert!(plan.close.is_empty());
    assert!(plan.pid_file.is_none());
    assert_eq!(plan.notify, None);
}

#[test]
fn the_pid_file_is_rewritten_after_a_failed_upgrade_only() {
    let mut e = first();
    assert!(e.write_pidfile().is_none());
    assert!(e.upgrade_finished(Err(UpgradeError::ChildExit)).1.is_none());
    e.set_pid_file(path("/run/p.pid"));
    let (result, rewrite) = e.upgrade_finished(Err(UpgradeError::ChildTimeout));
    assert!(matches!(result, Err(UpgradeError::ChildTimeout)));
    assert_eq!(rewrite.unwrap().bytes, b"/run/p.pid".to_vec());
    let (result, rewrite) = e.upgrade_finished(Ok(()));
    assert!(result.is_ok());
    assert!(rewrite.is_none());
}

#[test]
fn an_upgrade_hands_over_what_is_used() {
    let mut e = first();
    let end = e.listen_outcome(tcp_built(V4), all_ok(0, item(3, SockInfo::Tcp(V4)), 30));
    assert!(matches!(end, ListenEnd::Created(3)));
    let mut flag = UpgradeFlag { upgrading: false };
    assert!(e.upgrade(&mut flag).is_ok());
    assert!(e.upgrade(&mut flag).is_err());
    flag.upgrading = false;
    assert!(e.upgrade_to(&mut flag, path("/new")).is_ok());
    assert!(e.get_fds_for_child() == vec![item(30, SockInfo::Tcp(V4))]);
}

#[test]
fn quitting_closes_everything() {
    let mut e = child(vec![item(10, SockInfo::Udp(V4))]);
    let end = e.listen_outcome(tcp_built(V4), all_ok(0, item(3, SockInfo::Tcp(V4)), 30));
    assert!(matches!(end, ListenEnd::Created(3)));
    assert_eq!(e.quit(), vec![30, 10]);
    assert!(e.quit().is_empty());
    assert!(e.get_fds_for_child().is_empty());
}

#[test]
fn a_new_socket_is_made_registered_and_described() {
    let mut e = first();
    let creating = match e.listen_tcp(V4_ANY) {
        ListenStart::Create(creating) => creating,
        ListenStart::Adopt(_) => panic!("inherited"),
    };
    match creating.socket() {
        NewSocket::TcpBound { domain, addr, backlog } => {
            assert_eq!((*domain, *addr, *backlog), (Domain::Ipv4, V4_ANY, 128))
        }
        _ => panic!("another socket"),
    }
    // The socket got a port of its own, and is registered by that.
    let adding = creating.created(Ok::<_, ()>(item(3, SockInfo::Tcp(V4)))).unwrap_or_else(|_| panic!());
    assert_eq!(adding.op(), FdOp::Dup(3));
    assert_eq!(adding.finish(&mut e, Ok::<i32, ()>(30)), Ok(()));
    assert!(e.get_fds_for_child() == vec![item(30, SockInfo::Tcp(V4))]);
}

#[test]
fn errors_on_the_way_to_a_new_socket_are_returned() {
    let mut e = first();
    let no_bind = ListenSeen { adopt_dup: Ok(1), created: Err("EADDRINUSE"), add_dup: Ok(2) };
    assert!(matches!(e.listen_outcome(tcp_built(V4), no_bind), ListenEnd::Failed("EADDRINUSE")));
    let no_dup = ListenSeen {
        adopt_dup: Ok(1),
        created: Ok(item(3, SockInfo::Tcp(V4))),
        add_dup: Err("EMFILE"),
    };
    assert!(matches!(e.listen_outcome(tcp_built(V4), no_dup), ListenEnd::Failed("EMFILE")));
    assert!(e.get_fds_for_child().is_empty());
}

#[test]
fn an_inherited_socket_is_used_as_it_is() {
    let mut e = child(vec![item(10, SockInfo::Unix(Some(path("/run/s"))))]);
    let adopting = match e.listen_unix(path("/run//s")) {
        ListenStart::Adopt(adopting) => adopting,
        ListenStart::Create(_) => panic!("not inherited"),
    };
    assert_eq!(adopting.ops(), [FdOp::SetCloexec(10), FdOp::Dup(10)]);
    assert_eq!(adopting.finish(&mut e, Ok::<i32, ()>(20)), 10);
    let used = e.get_fds_for_child();
    assert_eq!(used[0].fd, 20);
    match &used[0].sock_info {
        SockInfo::Unix(Some(p)) => assert_eq!(p.bytes, b"/run//s".to_vec()),
        _ => panic!("another socket"),
    }
}

#[test]
fn an_inherited_socket_that_cannot_be_copied_is_used_but_not_handed_on() {
    let mut e = child(vec![item(10, SockInfo::Tcp(V4))]);
    let seen = ListenSeen {
        adopt_dup: Err("EMFILE"),
        created: Ok(item(3, SockInfo::Tcp(V4))),
        add_dup: Ok(30),
    };
    assert!(matches!(e.listen_outcome(tcp_built(V4), seen), ListenEnd::Inherited(10)));
    assert!(e.ready().close.is_empty());
    assert!(e.get_fds_for_child().is_empty());
}

#[test]
fn each_kind_of_socket_is_looked_for_by_its_own_kind() {
    let inherited = vec![
        item(10, SockInfo::Unix(Some(path("/s")))),
        item(11, SockInfo::UnixSeqpacket(Some(path("/s")))),
        item(12, SockInfo::Tcp(V6)),
        item(13, SockInfo::Udp(V6)),
    ];
    let mut e = child(inherited);
    let opened = |start: ListenStart| match start {
        ListenStart::Adopt(adopting) => adopting.ops()[1],
        ListenStart::Create(_) => panic!("not inherited"),
    };
    assert_eq!(opened(e.listen_unix_seqpacket(path("/s"))), FdOp::Dup(11));
    assert_eq!(opened(e.build_socket_udp(V6)), FdOp::Dup(13));
    assert_eq!(opened(e.listen_unix(path("/s"))), FdOp::Dup(10));
    assert_eq!(opened(e.build_listen_tcp(V6)), FdOp::Dup(12));
    assert!(matches!(e.listen_tcp(V6), ListenStart::Create(_)));
}

#[test]
fn new_sockets_are_what_was_asked_for() {
    let mut e = first();
    let made = |start: ListenStart| match start {
        ListenStart::Create(creating) => format!("{:?}", creating.socket()),
        ListenStart::Adopt(_) => panic!("inherited"),
    };
    assert!(made(e.listen_unix(path("/s"))).starts_with("Unix("));
    assert!(made(e.listen_unix_seqpacket(path("/s"))).starts_with("UnixSeqpacket("));
    assert!(made(e.build_listen_tcp(V6)).starts_with("TcpBuilt { domain: Ipv6"));
    assert!(made(e.build_socket_udp(V4)).starts_with("UdpBuilt { domain: Ipv4"));
}

#[test]
fn a_socket_survives_several_upgrades() {
    let mut e = first();
    let end = e.listen_outcome(tcp_built(V4), all_ok(0, item(3, SockInfo::Tcp(V4)), 30));
    assert!(matches!(end, ListenEnd::Created(3)));
    let mut handed = 30;
    for generation in 1..4 {
        let mut next = child(e.get_fds_for_child());
        let copy = 30 + generation;
        let seen = all_ok(copy, item(99, SockInfo::Tcp(V6)), 98);
        match next.listen_outcome(tcp_built(V4), seen) {
            ListenEnd::Inherited(fd) => assert_eq!(fd, handed),
            _ => panic!("not inherited"),
        }
        handed = copy;
        e = next;
    }
}

#[test]
fn datagram_pairs_form_a_chain() {
    let mut e = first();
    let pair = e.unix_datagram_pair("control".to_string());
    assert!(pair.to_parent.is_none());
    let adding = pair.to_child.made(Ok::<i32, ()>(7)).unwrap_or_else(|_| panic!());
    assert_eq!(adding.op(), FdOp::Dup(7));
    assert_eq!(adding.finish(&mut e, Ok::<i32, ()>(70)), Ok(()));

    let mut next = child(e.get_fds_for_child());
    assert!(next.unix_datagram_pair("other".to_string()).to_parent.is_none());
    let pair = next.unix_datagram_pair("control".to_string());
    assert_eq!(pair.to_parent, Some((70, FdOp::SetCloexec(70))));
    assert!(matches!(pair.to_child.made(Err::<i32, &str>("EMFILE")), Err("EMFILE")));
    // A second child of the first process would get the same end.
    let mut sibling = child(e.get_fds_for_child());
    assert_eq!(
        sibling.unix_datagram_pair("control".to_string()).to_parent,
        Some((70, FdOp::SetCloexec(70)))
    );
}
