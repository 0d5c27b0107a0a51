use ecdysis::path::SockPath;
use ecdysis::registry::{FdOp, ListenerInfo, ListenerRegistry, SockAddr, SockInfo};

fn path(text: &str) -> SockPath {
    SockPath::new(text.as_bytes().to_vec())
}

fn unix(text: &str) -> SockInfo {
    SockInfo::Unix(Some(path(text)))
}

fn tcp(port: u16) -> SockInfo {
    SockInfo::Tcp(SockAddr::V4 { ip: 0x7f00_0001, port })
}

fn item(fd: i32, sock_info: SockInfo) -> ListenerInfo {
    ListenerInfo { fd, sock_info }
}

fn fds(list: &[ListenerInfo]) -> Vec<i32> {
    list.iter().map(|l| l.fd).collect()
}

#[test]
fn paths_are_compared_by_their_components() {
    assert!(path("a/b").same_path(&path("a//b")));
    assert!(path("a/b").same_path(&path("a/b/")));
    assert!(path("a/b").same_path(&path("a/./b/.")));
    assert!(path("/a/b").same_path(&path("//a/./b")));
    assert!(path("/").same_path(&path("//.")));
    assert!(path("./a").same_path(&path(".//a/")));
    assert!(path("..").same_path(&path("../")));
    assert!(path("").same_path(&path("")));
}

#[test]
fn different_paths_differ() {
    assert!(!path("a").same_path(&path("./a")));
    assert!(!path("a").same_path(&path("/a")));
    assert!(!path("").same_path(&path(".")));
    assert!(!path("a/b").same_path(&path("ab")));
    assert!(!path("a/../b").same_path(&path("b")));
    assert!(!path("a").same_path(&path("a/b")));
    assert!(!path(".a").same_path(&path("a")));
    assert!(!path("/").same_path(&path("")));
}

#[test]
fn path_comparison_agrees_with_std() {
    let spellings = [
        "", ".", "./", "..", "/", "//", "/.", "./.", "a", "a/", "a/.", "./a", "././a", "a/b",
        "a//b", "a/./b", "a/b/", "a/b/.", "/a", "//a", "/./a", "/a/b", ".a", "a.", "..a", "a/..",
        "a/../b", "b", "...", "/..", "../a", "./../a", "a/ ", " ",
    ];
    for x in spellings {
        for y in spellings {
            let std_says = std::path::Path::new(x) == std::path::Path::new(y);
            assert_eq!(path(x).same_path(&path(y)), std_says, "{x:?} {y:?}");
        }
    }
}

#[test]
fn paths_need_not_be_text() {
    let odd = SockPath::new(vec![47, 255, 254]);
    assert!(odd.same_path(&SockPath::new(vec![47, 47, 255, 254, 47])));
    assert!(!odd.same_path(&SockPath::new(vec![47, 255])));
    assert_eq!(odd.clone().bytes, vec![47, 255, 254]);
}

#[test]
fn sockets_of_different_kinds_differ() {
    let addr = SockAddr::V4 { ip: 1, port: 2 };
    assert!(SockInfo::Tcp(addr) != SockInfo::Udp(addr));
    assert!(unix("/a") != SockInfo::UnixSeqpacket(Some(path("/a"))));
    assert!(unix("/a") != SockInfo::Unix(None));
    assert!(SockInfo::Unix(None) == SockInfo::Unix(None));
    assert!(SockInfo::Unix(None) != SockInfo::UnixSeqpacket(None));
    assert!(
        SockInfo::UnboundUnixDatagram("x".to_string())
            == SockInfo::UnboundUnixDatagram("x".to_string())
    );
    assert!(
        SockInfo::UnboundUnixDatagram("x".to_string())
            != SockInfo::UnboundUnixDatagram("y".to_string())
    );
}

#[test]
fn addresses_are_compared_in_full() {
    let v6 = |flowinfo: u32, scope_id: u32| {
        SockInfo::Tcp(SockAddr::V6 { ip: 1, port: 80, flowinfo, scope_id })
    };
    assert!(v6(0, 0) == v6(0, 0));
    assert!(v6(0, 0) != v6(1, 0));
    assert!(v6(0, 0) != v6(0, 1));
    assert!(tcp(80) != tcp(81));
    assert!(tcp(80) != SockInfo::Tcp(SockAddr::V4 { ip: 0x7f00_0002, port: 80 }));
}

#[test]
fn listeners_are_compared_by_descriptor_and_socket() {
    assert!(item(3, unix("/a")) == item(3, unix("/a/")));
    assert!(item(3, unix("/a")) != item(4, unix("/a")));
    assert!(item(3, unix("/a")) != item(3, unix("/b")));
}

#[test]
fn a_new_registry_is_empty() {
    let mut registry = ListenerRegistry::new();
    assert_eq!(registry.take(&tcp(80)), None);
    assert!(registry.get_fds_for_child().is_empty());
    assert!(registry.close_all().is_empty());
}

#[test]
fn take_removes_the_first_match() {
    let mut registry = ListenerRegistry::from_inherited(vec![
        item(10, tcp(80)),
        item(11, unix("/s")),
        item(12, tcp(80)),
    ]);
    assert_eq!(registry.take(&unix("//s/")), Some((11, FdOp::SetCloexec(11))));
    assert_eq!(registry.take(&unix("/s")), None);
    assert_eq!(registry.take(&tcp(80)), Some((10, FdOp::SetCloexec(10))));
    assert_eq!(registry.take(&tcp(80)), Some((12, FdOp::SetCloexec(12))));
    assert_eq!(registry.take(&tcp(80)), None);
}

#[test]
fn inherit_hands_out_the_descriptor_and_registers_the_duplicate() {
    let mut registry = ListenerRegistry::from_inherited(vec![item(10, tcp(80))]);
    let adopting = match registry.inherit(tcp(80)) {
        Ok(adopting) => adopting,
        Err(_) => panic!("not found"),
    };
    assert_eq!(adopting.fd(), 10);
    assert_eq!(adopting.ops(), [FdOp::SetCloexec(10), FdOp::Dup(10)]);
    assert_eq!(adopting.finish(&mut registry, Ok::<i32, ()>(21)), 10);
    let child = registry.get_fds_for_child();
    assert!(child == vec![item(21, tcp(80))]);
    assert!(registry.close_inherited().is_empty());
}

#[test]
fn inherit_without_a_duplicate_registers_nothing() {
    let mut registry = ListenerRegistry::from_inherited(vec![item(10, tcp(80))]);
    let adopting = match registry.inherit(tcp(80)) {
        Ok(adopting) => adopting,
        Err(_) => panic!("not found"),
    };
    assert_eq!(adopting.finish(&mut registry, Err::<i32, &str>("EMFILE")), 10);
    assert!(registry.get_fds_for_child().is_empty());
    assert!(registry.close_inherited().is_empty());
}

#[test]
fn inherit_gives_back_what_is_not_there() {
    let mut registry = ListenerRegistry::from_inherited(vec![item(10, tcp(80))]);
    match registry.inherit(tcp(81)) {
        Err(sock_info) => assert!(sock_info == tcp(81)),
        Ok(_) => panic!("found"),
    }
    assert_eq!(registry.close_inherited(), vec![10]);
}

#[test]
fn add_registers_under_the_duplicate() {
    let mut registry = ListenerRegistry::new();
    assert_eq!(registry.add(item(3, tcp(80)), Ok::<i32, ()>(7)), Ok(()));
    assert_eq!(registry.add(item(4, unix("/s")), Ok::<i32, ()>(8)), Ok(()));
    let child = registry.get_fds_for_child();
    assert!(child == vec![item(7, tcp(80)), item(8, unix("/s"))]);
}

#[test]
fn add_that_fails_registers_nothing() {
    let mut registry = ListenerRegistry::new();
    assert_eq!(registry.add(item(3, tcp(80)), Err("EMFILE")), Err("EMFILE"));
    assert!(registry.get_fds_for_child().is_empty());
}

#[test]
fn remove_used_forgets_the_first_match() {
    let mut registry = ListenerRegistry::new();
    for (fd, port) in [(5, 80), (6, 81), (7, 80)] {
        assert_eq!(registry.add(item(fd, tcp(port)), Ok::<i32, ()>(fd)), Ok(()));
    }
    assert_eq!(registry.remove_used(&tcp(80)), Some(5));
    assert_eq!(fds(&registry.get_fds_for_child()), vec![6, 7]);
    assert_eq!(registry.remove_used(&tcp(99)), None);
    assert_eq!(fds(&registry.get_fds_for_child()), vec![6, 7]);
}

#[test]
fn closing_lists_every_descriptor_once() {
    let mut registry =
        ListenerRegistry::from_inherited(vec![item(10, tcp(80)), item(11, tcp(81))]);
    assert_eq!(registry.add(item(3, tcp(82)), Ok::<i32, ()>(30)), Ok(()));
    assert_eq!(registry.add(item(4, tcp(83)), Ok::<i32, ()>(31)), Ok(()));
    assert_eq!(registry.close_used(), vec![30, 31]);
    assert!(registry.close_used().is_empty());
    assert_eq!(registry.close_inherited(), vec![10, 11]);
    assert!(registry.close_inherited().is_empty());
}

#[test]
fn the_end_closes_used_before_inherited() {
    let mut registry = ListenerRegistry::from_inherited(vec![item(10, tcp(80))]);
    assert_eq!(registry.add(item(3, tcp(82)), Ok::<i32, ()>(30)), Ok(()));
    assert_eq!(registry.close_all(), vec![30, 10]);
    assert!(registry.close_all().is_empty());
}

#[test]
fn what_is_told_to_the_child_keeps_the_spelling_of_paths() {
    let mut registry = ListenerRegistry::new();
    assert_eq!(registry.add(item(3, unix("/run//s/")), Ok::<i32, ()>(9)), Ok(()));
    let child = registry.get_fds_for_child();
    match &child[0].sock_info {
        SockInfo::Unix(Some(p)) => assert_eq!(p.bytes, b"/run//s/".to_vec()),
        _ => panic!("another socket"),
    }
}

#[test]
fn a_child_that_asks_in_order_gets_everything() {
    let mut parent = ListenerRegistry::new();
    for (fd, info) in [(20, tcp(80)), (21, unix("/s")), (22, tcp(80))] {
        assert_eq!(parent.add(item(1, info), Ok::<i32, ()>(fd)), Ok(()));
    }
    let mut child = ListenerRegistry::from_inherited(parent.get_fds_for_child());
    assert_eq!(child.take(&tcp(80)), Some((20, FdOp::SetCloexec(20))));
    assert_eq!(child.take(&unix("/s")), Some((21, FdOp::SetCloexec(21))));
    assert_eq!(child.take(&tcp(80)), Some((22, FdOp::SetCloexec(22))));
    assert!(child.close_all().is_empty());
}

#[test]
fn take_leaves_the_other_entries_in_their_order() {
    let seqpacket = SockInfo::UnixSeqpacket(Some(SockPath::new(b"/a".to_vec())));
    let mut registry = ListenerRegistry::from_inherited(vec![
        item(5, unix("/b")),
        item(7, unix("/a")),
        item(8, seqpacket),
        item(9, unix("/a")),
    ]);
    assert_eq!(registry.take(&unix("/a")), Some((7, FdOp::SetCloexec(7))));
    assert!(registry.get_fds_for_child().is_empty());
    assert_eq!(registry.close_inherited(), vec![5, 8, 9]);
}

#[test]
fn the_same_socket_can_be_asked_for_again() {
    let mut registry = ListenerRegistry::from_inherited(vec![
        item(10, tcp(80)),
        item(11, tcp(81)),
        item(12, tcp(80)),
        item(13, unix("/s")),
    ]);
    for (fd, copy) in [(10, 20), (12, 21)] {
        match registry.inherit(tcp(80)) {
            Ok(adopting) => {
                assert_eq!(adopting.finish(&mut registry, Ok::<i32, ()>(copy)), fd)
            }
            Err(_) => panic!("not found"),
        }
    }
    assert!(registry.inherit(tcp(80)).is_err());
    assert!(registry.get_fds_for_child() == vec![item(20, tcp(80)), item(21, tcp(80))]);
    assert_eq!(registry.close_inherited(), vec![11, 13]);
}
