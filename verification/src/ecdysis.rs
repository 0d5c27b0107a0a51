//! The upgrade manager of one process: its sockets, its pid file, and its word to the parent.
use crate::executioner::upgrade;
use crate::executioner::upgrade_to;
use crate::executioner::UpgradeError;
use crate::executioner::UpgradeErrorView;
use crate::executioner::UpgradeFinished;
use crate::executioner::UpgradeFlag;
use crate::executioner::UpgradeStart;
use crate::executioner::READY_MESSAGE;
use crate::path::SockPath;
use crate::registry::fds_of;
use crate::registry::law_first_entry_is_handed_out;
use crate::registry::law_nothing_is_handed_out;
use crate::registry::listeners_view;
use crate::registry::opt_path_view;
use crate::registry::Adopting;
use crate::registry::FdOp;
use crate::registry::ListenerInfo;
use crate::registry::ListenerRegistry;
use crate::registry::ListenerView;
use crate::registry::RegistryView;
use crate::registry::SockAddr;
use crate::registry::SockInfo;
use crate::registry::SockInfoView;
use vstd::prelude::*;

verus! {

/// Why a process got nothing from a parent.
#[derive(Debug)]
pub enum InheritError {
    /// It was not started by an upgrade.
    NotAnUpgrade,
    /// It was, but what the parent left it could not be read; holds the reason.
    Environment(String),
}

/// The status with which a process ends whose upgrade environment is broken.
pub const FATAL_STATUS: i32 = 1;

/// The queue length of listening sockets.
pub const LISTEN_BACKLOG: i32 = 128;

/// The protocol family of an internet socket.
#[derive(Clone, Copy, Debug, PartialEq, Eq, Structural)]
pub enum Domain {
    Ipv4,
    Ipv6,
}

pub open spec fn domain_of(addr: SockAddr) -> Domain {
    match addr {
        SockAddr::V4 { .. } => Domain::Ipv4,
        SockAddr::V6 { .. } => Domain::Ipv6,
    }
}

/// The family that sockets for `addr` belong to.
pub fn domain_for_address(addr: SockAddr) -> (r: Domain)
    ensures
        r == domain_of(addr),
{
    match addr {
        SockAddr::V4 { .. } => Domain::Ipv4,
        SockAddr::V6 { .. } => Domain::Ipv6,
    }
}

/// A socket that is made where none was inherited.
#[derive(Debug)]
pub enum NewSocket {
    /// A listener bound to the path.
    Unix(SockPath),
    /// A listener for sequenced packets, bound to the path.
    UnixSeqpacket(SockPath),
    /// A stream socket, bound to `addr` and listening with the given queue length.
    TcpBound { domain: Domain, addr: SockAddr, backlog: i32 },
    /// A stream socket that the caller's closure turns into a listener.
    TcpBuilt { domain: Domain, addr: SockAddr },
    /// A datagram socket that the caller's closure configures.
    UdpBuilt { domain: Domain, addr: SockAddr },
}

impl NewSocket {
    /// What the socket is looked for by.
    pub open spec fn info(self) -> SockInfoView {
        match self {
            NewSocket::Unix(path) => SockInfoView::Unix(Some(path@)),
            NewSocket::UnixSeqpacket(path) => SockInfoView::UnixSeqpacket(Some(path@)),
            NewSocket::TcpBound { addr, .. } => SockInfoView::Tcp(addr),
            NewSocket::TcpBuilt { addr, .. } => SockInfoView::Tcp(addr),
            NewSocket::UdpBuilt { addr, .. } => SockInfoView::Udp(addr),
        }
    }

    /// What the socket is looked for by.
    fn sock_info(&self) -> (r: SockInfo)
        ensures
            r@ == self.info(),
    {
        match self {
            NewSocket::Unix(path) => SockInfo::Unix(Some(path.clone())),
            NewSocket::UnixSeqpacket(path) => SockInfo::UnixSeqpacket(Some(path.clone())),
            NewSocket::TcpBound { addr, .. } => SockInfo::Tcp(*addr),
            NewSocket::TcpBuilt { addr, .. } => SockInfo::Tcp(*addr),
            NewSocket::UdpBuilt { addr, .. } => SockInfo::Udp(*addr),
        }
    }
}

/// The first step of opening a socket.
pub enum ListenStart {
    /// One was inherited.
    Adopt(ListenAdopting),
    /// None was: a new one has to be made.
    Create(ListenCreating),
}

/// An inherited socket on its way into use.
pub struct ListenAdopting {
    adopting: Adopting,
}

/// A socket that has to be made.
pub struct ListenCreating {
    socket: NewSocket,
}

/// A new socket that is not registered yet.
pub struct ListenAdding {
    item: ListenerInfo,
}

/// What a manager holds.
#[verifier::ext_equal]
pub struct EcdysisView {
    pub registry: RegistryView,
    /// The parent waits for word of this process.
    pub notifier: bool,
    pub pid_file: Option<Seq<u8>>,
    pub child: bool,
}

/// The upgrade manager of a process.
///
/// * During an upgrade, managed sockets continue to accept connections.
/// * Errors in the child do not interrupt anything that uses the sockets.
/// * After the child declared itself ready it accepts connections, and the parent stops to.
pub struct Ecdysis {
    registry: ListenerRegistry,
    ready_notifier: bool,
    pid_file: Option<SockPath>,
    child: bool,
}

impl View for Ecdysis {
    type V = EcdysisView;

    closed spec fn view(&self) -> EcdysisView {
        EcdysisView {
            registry: self.registry@,
            notifier: self.ready_notifier,
            pid_file: opt_path_view(self.pid_file),
            child: self.child,
        }
    }
}

impl EcdysisView {
    pub open spec fn with_registry(self, registry: RegistryView) -> EcdysisView {
        EcdysisView { registry, ..self }
    }

    /// What a process that declares itself ready writes to its parent.
    pub open spec fn ready_message(self) -> Option<[u8; 2]> {
        if self.notifier {
            Some(READY_MESSAGE)
        } else {
            None
        }
    }

    /// The manager once the process declared itself ready.
    pub open spec fn after_ready(self) -> EcdysisView {
        EcdysisView {
            registry: RegistryView { inherited: Seq::empty(), used: self.registry.used },
            notifier: false,
            ..self
        }
    }
}

/// `r` is the first step of opening `socket`, and `after` what it leaves of `before`.
pub open spec fn listen_started(
    before: EcdysisView,
    after: EcdysisView,
    socket: NewSocket,
    r: ListenStart,
) -> bool {
    &&& after == before.with_registry(before.registry.after_take(socket.info()))
    &&& match before.registry.taken(socket.info()) {
        Some(fd) => r is Adopt && r->Adopt_0.spec_fd() == fd && r->Adopt_0.spec_info()
            == socket.info(),
        None => r is Create && r->Create_0.spec_socket() == socket,
    }
}

impl ListenAdopting {
    pub closed spec fn spec_fd(&self) -> i32 {
        self.adopting.spec_fd()
    }

    /// What it is registered by: what it was asked for by.
    pub closed spec fn spec_info(&self) -> SockInfoView {
        self.adopting.spec_info()
    }

    /// What has to be done, in this order, before [`ListenAdopting::finish`]; the reply to the
    /// second operation is what it takes.
    pub fn ops(&self) -> (r: [FdOp; 2])
        ensures
            r@ == seq![FdOp::SetCloexec(self.spec_fd()), FdOp::Dup(self.spec_fd())],
    {
        self.adopting.ops()
    }

    /// Registers the duplicate for the child, where it could be made. The socket is the one behind
    /// the descriptor that is returned.
    pub fn finish<E>(self, ecdysis: &mut Ecdysis, dup: Result<i32, E>) -> (r: i32)
        ensures
            r == self.spec_fd(),
            final(ecdysis)@ == old(ecdysis)@.with_registry(
                old(ecdysis)@.registry.with_copy(dup, self.spec_info()),
            ),
    {
        self.adopting.finish(&mut ecdysis.registry, dup)
    }
}

impl ListenCreating {
    pub closed spec fn spec_socket(&self) -> NewSocket {
        self.socket
    }

    /// The socket to make.
    pub fn socket(&self) -> (r: &NewSocket)
        ensures
            *r == self.spec_socket(),
    {
        &self.socket
    }

    /// Goes on with the new socket, as it describes itself, or with the error that kept it from
    /// being made or described.
    pub fn created<E>(self, made: Result<ListenerInfo, E>) -> (r: Result<ListenAdding, E>)
        ensures
            match made {
                Ok(item) => r is Ok && r->Ok_0.spec_item() == item@,
                Err(e) => r == Err::<ListenAdding, E>(e),
            },
    {
        match made {
            Ok(item) => Ok(ListenAdding { item }),
            Err(e) => Err(e),
        }
    }
}

impl ListenAdding {
    pub closed spec fn spec_item(&self) -> ListenerView {
        self.item@
    }

    /// A socket that is to be registered.
    pub(crate) fn new(item: ListenerInfo) -> (r: Self)
        ensures
            r.spec_item() == item@,
    {
        ListenAdding { item }
    }

    /// The descriptor of the new socket.
    pub fn fd(&self) -> (r: i32)
        ensures
            r == self.spec_item().fd,
    {
        self.item.fd
    }

    /// What has to be done before [`ListenAdding::finish`], which takes the reply.
    pub fn op(&self) -> (r: FdOp)
        ensures
            r == FdOp::Dup(self.spec_item().fd),
    {
        FdOp::Dup(self.item.fd)
    }

    /// Registers the socket for the child, by how it describes itself.
    pub fn finish<E>(self, ecdysis: &mut Ecdysis, dup: Result<i32, E>) -> (r: Result<(), E>)
        ensures
            match dup {
                Ok(copy) => r == Ok::<(), E>(()) && final(ecdysis)@ == old(ecdysis)@.with_registry(
                    old(ecdysis)@.registry.with_used(copy, self.spec_item().sock_info),
                ),
                Err(e) => r == Err::<(), E>(e) && final(ecdysis)@ == old(ecdysis)@,
            },
    {
        ecdysis.registry.add(self.item, dup)
    }
}

/// One thing that a process does to declare itself ready.
#[derive(Debug)]
pub enum ReadyOp {
    /// Close the descriptor; a failure is of no interest.
    Close(i32),
    /// Write the pid to the file; a failure is of no interest.
    WritePid(SockPath),
    /// Write the message to the parent. The outcome goes to [`ReadyPlan::outcome`].
    Notify([u8; 2]),
}

#[verifier::ext_equal]
pub enum ReadyOpView {
    Close(i32),
    WritePid(Seq<u8>),
    Notify([u8; 2]),
}

impl View for ReadyOp {
    type V = ReadyOpView;

    open spec fn view(&self) -> ReadyOpView {
        match *self {
            ReadyOp::Close(fd) => ReadyOpView::Close(fd),
            ReadyOp::WritePid(path) => ReadyOpView::WritePid(path@),
            ReadyOp::Notify(message) => ReadyOpView::Notify(message),
        }
    }
}

pub open spec fn ready_ops_view(s: Seq<ReadyOp>) -> Seq<ReadyOpView> {
    s.map_values(|op: ReadyOp| op@)
}

/// What a process does to declare itself ready, in this order: the descriptors that nobody asked
/// for go, then the pid is written, and only then the parent is told.
pub open spec fn ready_ops(
    close: Seq<i32>,
    pid_file: Option<Seq<u8>>,
    notify: Option<[u8; 2]>,
) -> Seq<ReadyOpView> {
    close.map_values(|fd: i32| ReadyOpView::Close(fd)) + match pid_file {
        Some(path) => seq![ReadyOpView::WritePid(path)],
        None => Seq::empty(),
    } + match notify {
        Some(message) => seq![ReadyOpView::Notify(message)],
        None => Seq::empty(),
    }
}

/// What a process does to declare itself ready.
pub struct ReadyPlan {
    /// Descriptors to close: inherited, and asked for by nobody.
    pub close: Vec<i32>,
    /// The file to write the pid to, where there is one; a failure is of no interest.
    pub pid_file: Option<SockPath>,
    /// The message to write to the parent, where there is one that waits for it.
    pub notify: Option<[u8; 2]>,
}

impl ReadyPlan {
    /// What has to be done, in this order.
    pub fn ops(&self) -> (r: Vec<ReadyOp>)
        ensures
            ready_ops_view(r@) == ready_ops(self.close@, opt_path_view(self.pid_file), self.notify),
            r@.len() == self.close@.len() + (if self.pid_file is Some {
                1int
            } else {
                0int
            }) + (if self.notify is Some {
                1int
            } else {
                0int
            }),
            forall|i: int|
                0 <= i < self.close@.len() ==> #[trigger] r@[i] == ReadyOp::Close(self.close@[i]),
            self.pid_file matches Some(path) ==> (r@[self.close@.len() as int]
                matches ReadyOp::WritePid(p) && p@ == path@),
            self.notify matches Some(message) ==> r@.last() == ReadyOp::Notify(message),
    {
        let mut ops: Vec<ReadyOp> = Vec::new();
        let mut i: usize = 0;
        while i < self.close.len()
            invariant
                i <= self.close.len(),
                ops@.len() == i,
                forall|j: int| 0 <= j < i ==> #[trigger] ops@[j] == ReadyOp::Close(self.close@[j]),
            decreases self.close.len() - i,
        {
            ops.push(ReadyOp::Close(self.close[i]));
            i = i + 1;
        }
        if let Some(path) = &self.pid_file {
            ops.push(ReadyOp::WritePid(path.clone()));
        }
        if let Some(message) = self.notify {
            ops.push(ReadyOp::Notify(message));
        }
        assert(ready_ops_view(ops@) =~= ready_ops(
            self.close@,
            opt_path_view(self.pid_file),
            self.notify,
        ));
        ops
    }

    /// The outcome of declaring readiness, given that of writing to the parent. Where nothing was
    /// to be written there is nothing that could have failed.
    pub fn outcome<E>(&self, written: Result<(), E>) -> (r: Result<(), E>)
        ensures
            r == if self.notify is Some {
                written
            } else {
                Ok(())
            },
    {
        match self.notify {
            Some(_) => written,
            None => Ok(()),
        }
    }
}

/// The first step of a pair of datagram sockets between parent and child.
pub struct DatagramPair {
    /// The end that leads to the parent, where it left one of this name, with the operation that
    /// is due on it.
    pub to_parent: Option<(i32, FdOp)>,
    /// The pair for the child, which has to be made.
    pub to_child: DatagramPairing,
}

/// A pair of datagram sockets that has to be made.
pub struct DatagramPairing {
    name: String,
}

impl DatagramPairing {
    pub closed spec fn spec_name(&self) -> Seq<char> {
        self.name@
    }

    /// Goes on with the descriptor of the child's end of the new pair. That end is registered; the
    /// other one is for the caller.
    pub fn made<E>(self, childs_end: Result<i32, E>) -> (r: Result<ListenAdding, E>)
        ensures
            match childs_end {
                Ok(fd) => r is Ok && r->Ok_0.spec_item() == (ListenerView {
                    fd,
                    sock_info: SockInfoView::UnboundUnixDatagram(self.spec_name()),
                }),
                Err(e) => r == Err::<ListenAdding, E>(e),
            },
    {
        match childs_end {
            Ok(fd) => Ok(
                ListenAdding {
                    item: ListenerInfo { fd, sock_info: SockInfo::UnboundUnixDatagram(self.name) },
                },
            ),
            Err(e) => Err(e),
        }
    }
}

impl Ecdysis {
    /// The manager of a process, given what it got from its parent. Where its upgrade environment
    /// is broken the process has to end, with the status returned.
    pub fn new(init: Result<Vec<ListenerInfo>, InheritError>) -> (r: Result<Self, i32>)
        ensures
            match init {
                Ok(fds) => r is Ok && r->Ok_0@ == (EcdysisView {
                    registry: RegistryView {
                        inherited: listeners_view(fds@),
                        used: Seq::empty(),
                    },
                    notifier: true,
                    pid_file: None,
                    child: true,
                }),
                Err(InheritError::NotAnUpgrade) => r is Ok && r->Ok_0@ == (EcdysisView {
                    registry: RegistryView::empty(),
                    notifier: false,
                    pid_file: None,
                    child: false,
                }),
                Err(_) => r == Err::<Ecdysis, i32>(FATAL_STATUS),
            },
    {
        match init {
            Ok(fds) => Ok(
                Ecdysis {
                    registry: ListenerRegistry::from_inherited(fds),
                    ready_notifier: true,
                    pid_file: None,
                    child: true,
                },
            ),
            Err(InheritError::NotAnUpgrade) => Ok(
                Ecdysis {
                    registry: ListenerRegistry::new(),
                    ready_notifier: false,
                    pid_file: None,
                    child: false,
                },
            ),
            Err(_) => Err(FATAL_STATUS),
        }
    }

    /// Whether this process is the result of an upgrade.
    pub fn is_child(&self) -> (r: bool)
        ensures
            r == self@.child,
    {
        self.child
    }

    /// Sets the file that the pid of the process in charge is kept in. It is written when a
    /// process declares itself ready, and by the parent when its upgrade fails.
    pub fn set_pid_file(&mut self, pid_file: SockPath)
        ensures
            final(self)@ == (EcdysisView { pid_file: Some(pid_file@), ..old(self)@ }),
    {
        self.pid_file = Some(pid_file);
    }

    /// The file that the pid has to be written to, where one was set.
    pub fn write_pidfile(&self) -> (r: Option<SockPath>)
        ensures
            opt_path_view(r) == self@.pid_file,
    {
        match &self.pid_file {
            Some(path) => Some(path.clone()),
            None => None,
        }
    }

    /// Declares the process ready. Inherited descriptors that nobody asked for go. The parent, if
    /// there is one, is told once.
    pub fn ready(&mut self) -> (r: ReadyPlan)
        ensures
            r.close@ == fds_of(old(self)@.registry.inherited),
            opt_path_view(r.pid_file) == old(self)@.pid_file,
            r.notify == old(self)@.ready_message(),
            old(self)@.notifier ==> r.notify == Some(READY_MESSAGE),
            !old(self)@.notifier ==> r.notify is None,
            final(self)@ == old(self)@.after_ready(),
    {
        let close: Vec<i32> = self.registry.close_inherited();
        let pid_file: Option<SockPath> = self.write_pidfile();
        let notify: Option<[u8; 2]> = if self.ready_notifier {
            Some(READY_MESSAGE)
        } else {
            None
        };
        self.ready_notifier = false;
        ReadyPlan { close, pid_file, notify }
    }

    /// Begins an upgrade: the process that calls this becomes the parent.
    pub fn upgrade(&self, flag: &mut UpgradeFlag) -> (r: Result<UpgradeStart, UpgradeError>)
        ensures
            final(flag).upgrading,
            if old(flag).upgrading {
                r is Err && r->Err_0@ == UpgradeErrorView::NotStarted("Already in upgrade"@)
            } else {
                r is Ok && r->Ok_0.spec_fds() == self@.registry.used && r->Ok_0.spec_exec() is None
            },
    {
        upgrade(flag, self.registry.get_fds_for_child())
    }

    /// Begins an upgrade that launches `exec` instead of the running program. The child inherits
    /// the same sockets, environment and arguments.
    pub fn upgrade_to(&self, flag: &mut UpgradeFlag, exec: SockPath) -> (r: Result<
        UpgradeStart,
        UpgradeError,
    >)
        ensures
            final(flag).upgrading,
            if old(flag).upgrading {
                r is Err && r->Err_0@ == UpgradeErrorView::NotStarted("Already in upgrade"@)
            } else {
                r is Ok && r->Ok_0.spec_fds() == self@.registry.used && r->Ok_0.spec_exec() == Some(
                    exec,
                )
            },
    {
        upgrade_to(flag, self.registry.get_fds_for_child(), exec)
    }

    /// Ends an upgrade with its outcome, which is returned. After a failure the parent stays in
    /// charge: the second part of the result is the pid file to write anew, where one was set.
    pub fn upgrade_finished(&self, result: UpgradeFinished) -> (r: (
        UpgradeFinished,
        Option<SockPath>,
    ))
        ensures
            r.0 == result,
            opt_path_view(r.1) == if result is Err {
                self@.pid_file
            } else {
                None
            },
    {
        let rewrite: Option<SockPath> = match &result {
            Ok(_) => None,
            Err(_) => self.write_pidfile(),
        };
        (result, rewrite)
    }

    /// Ends the manager, because the process shuts down or has been replaced: it forgets all its
    /// descriptors, and the result has to be closed. The application has to close its own
    /// descriptors as well before a socket stops to listen.
    pub fn quit(&mut self) -> (r: Vec<i32>)
        ensures
            r@ == old(self)@.registry.all_fds(),
            final(self)@ == old(self)@.with_registry(RegistryView::empty()),
    {
        self.registry.close_all()
    }

    /// Looks for an inherited socket.
    fn listen(&mut self, socket: NewSocket) -> (r: ListenStart)
        ensures
            listen_started(old(self)@, final(self)@, socket, r),
    {
        match self.registry.inherit(socket.sock_info()) {
            Ok(adopting) => ListenStart::Adopt(ListenAdopting { adopting }),
            Err(_) => ListenStart::Create(ListenCreating { socket }),
        }
    }

    /// Opens a registered listener bound to `path`: the one that the parent used, where it used
    /// one, and a new one otherwise.
    pub fn listen_unix(&mut self, path: SockPath) -> (r: ListenStart)
        ensures
            listen_started(old(self)@, final(self)@, NewSocket::Unix(path), r),
    {
        self.listen(NewSocket::Unix(path))
    }

    /// The same for sequenced packets.
    pub fn listen_unix_seqpacket(&mut self, path: SockPath) -> (r: ListenStart)
        ensures
            listen_started(old(self)@, final(self)@, NewSocket::UnixSeqpacket(path), r),
    {
        self.listen(NewSocket::UnixSeqpacket(path))
    }

    /// Opens a registered TCP listener on `addr`.
    pub fn listen_tcp(&mut self, addr: SockAddr) -> (r: ListenStart)
        ensures
            listen_started(
                old(self)@,
                final(self)@,
                (NewSocket::TcpBound { domain: domain_of(addr), addr, backlog: LISTEN_BACKLOG }),
                r,
            ),
    {
        self.listen(
            NewSocket::TcpBound {
                domain: domain_for_address(addr),
                addr,
                backlog: LISTEN_BACKLOG,
            },
        )
    }

    /// Opens a registered TCP listener on `addr`. A new one is configured by the caller.
    pub fn build_listen_tcp(&mut self, addr: SockAddr) -> (r: ListenStart)
        ensures
            listen_started(
                old(self)@,
                final(self)@,
                (NewSocket::TcpBuilt { domain: domain_of(addr), addr }),
                r,
            ),
    {
        self.listen(NewSocket::TcpBuilt { domain: domain_for_address(addr), addr })
    }

    /// Opens a registered UDP socket on `addr`. A new one is configured by the caller.
    pub fn build_socket_udp(&mut self, addr: SockAddr) -> (r: ListenStart)
        ensures
            listen_started(
                old(self)@,
                final(self)@,
                (NewSocket::UdpBuilt { domain: domain_of(addr), addr }),
                r,
            ),
    {
        self.listen(NewSocket::UdpBuilt { domain: domain_for_address(addr), addr })
    }

    /// Forms a link in a chain of datagram pairs between successive upgrades: one end leads to the
    /// parent, if it made a pair of this name, and the other to the child.
    pub fn unix_datagram_pair(&mut self, name: String) -> (r: DatagramPair)
        ensures
            ({
                let info = SockInfoView::UnboundUnixDatagram(name@);
                &&& final(self)@ == old(self)@.with_registry(old(self)@.registry.after_take(info))
                &&& r.to_parent == match old(self)@.registry.taken(info) {
                    Some(fd) => Some((fd, FdOp::SetCloexec(fd))),
                    None => None,
                }
                &&& r.to_child.spec_name() == name@
            }),
    {
        let sock_info: SockInfo = SockInfo::UnboundUnixDatagram(name.clone());
        let to_parent: Option<(i32, FdOp)> = self.registry.take(&sock_info);
        DatagramPair { to_parent, to_child: DatagramPairing { name } }
    }

    /// Takes an inherited socket into use, and never makes a new one.
    pub(crate) fn adopt(&mut self, sock_info: SockInfo) -> (r: Result<Adopting, SockInfo>)
        ensures
            final(self)@ == old(self)@.with_registry(
                old(self)@.registry.after_take(sock_info@),
            ),
            match old(self)@.registry.taken(sock_info@) {
                Some(fd) => r is Ok && r->Ok_0.spec_fd() == fd && r->Ok_0.spec_info()
                    == sock_info@,
                None => r is Err && r->Err_0@ == sock_info@,
            },
    {
        self.registry.inherit(sock_info)
    }

    /// Ends [`Ecdysis::adopt`] with the reply to the duplication.
    pub(crate) fn adopted<E>(&mut self, adopting: Adopting, dup: Result<i32, E>) -> (r: i32)
        ensures
            r == adopting.spec_fd(),
            final(self)@ == old(self)@.with_registry(
                old(self)@.registry.with_copy(dup, adopting.spec_info()),
            ),
    {
        adopting.finish(&mut self.registry, dup)
    }

    /// What the child is to be told of.
    pub fn get_fds_for_child(&self) -> (r: Vec<ListenerInfo>)
        ensures
            listeners_view(r@) == self@.registry.used,
    {
        self.registry.get_fds_for_child()
    }
}

/// What came back from the outside while a socket was opened. Only the replies to what was asked
/// for count.
pub struct ListenSeen<E> {
    /// The duplicate of the inherited descriptor.
    pub adopt_dup: Result<i32, E>,
    /// The new socket, as it describes itself.
    pub created: Result<ListenerInfo, E>,
    /// The duplicate of the new socket's descriptor.
    pub add_dup: Result<i32, E>,
}

/// How opening a socket ended.
#[derive(Debug)]
pub enum ListenEnd<E> {
    /// With the inherited socket behind this descriptor.
    Inherited(i32),
    /// With the new socket behind this descriptor.
    Created(i32),
    Failed(E),
}

/// How opening a socket ends: with the inherited one, where there is one.
pub open spec fn listen_end<E>(
    registry: RegistryView,
    info: SockInfoView,
    seen: ListenSeen<E>,
) -> ListenEnd<E> {
    match (registry.taken(info), seen.created, seen.add_dup) {
        (Some(fd), _, _) => ListenEnd::Inherited(fd),
        (None, Err(e), _) => ListenEnd::Failed(e),
        (None, _, Err(e)) => ListenEnd::Failed(e),
        (None, Ok(item), Ok(_)) => ListenEnd::Created(item.fd),
    }
}

/// The registry after a socket was opened, or could not be.
pub open spec fn listen_after<E>(
    registry: RegistryView,
    info: SockInfoView,
    seen: ListenSeen<E>,
) -> RegistryView {
    match listen_end(registry, info, seen) {
        ListenEnd::Inherited(_) => registry.after_inherit(info, seen.adopt_dup),
        ListenEnd::Created(_) => registry.with_used(
            seen.add_dup->Ok_0,
            seen.created->Ok_0@.sock_info,
        ),
        ListenEnd::Failed(_) => registry,
    }
}

impl Ecdysis {
    /// Puts what was seen of the outside through the steps of opening `socket`.
    pub fn listen_outcome<E>(&mut self, socket: NewSocket, seen: ListenSeen<E>) -> (r: ListenEnd<
        E,
    >)
        ensures
            r == listen_end(old(self)@.registry, socket.info(), seen),
            final(self)@ == old(self)@.with_registry(
                listen_after(old(self)@.registry, socket.info(), seen),
            ),
    {
        let creating: ListenCreating = match self.listen(socket) {
            ListenStart::Adopt(adopting) => {
                return ListenEnd::Inherited(adopting.finish(self, seen.adopt_dup));
            },
            ListenStart::Create(creating) => creating,
        };
        let adding: ListenAdding = match creating.created(seen.created) {
            Ok(adding) => adding,
            Err(e) => {
                return ListenEnd::Failed(e);
            },
        };
        let fd: i32 = adding.fd();
        match adding.finish(self, seen.add_dup) {
            Ok(_) => ListenEnd::Created(fd),
            Err(e) => ListenEnd::Failed(e),
        }
    }
}

/// The family of a socket is that of its address.
pub proof fn law_family_is_that_of_the_address(addr: SockAddr)
    ensures
        domain_of(addr) == Domain::Ipv4 <==> addr is V4,
        domain_of(addr) == Domain::Ipv6 <==> addr is V6,
{
}

/// A socket is looked for by its kind, and by the path or address that was asked for.
pub proof fn law_looked_for_by_what_was_asked(socket: NewSocket)
    ensures
        match socket {
            NewSocket::Unix(path) => socket.info() == SockInfoView::Unix(Some(path.bytes@)),
            NewSocket::UnixSeqpacket(path) => socket.info() == SockInfoView::UnixSeqpacket(
                Some(path.bytes@),
            ),
            NewSocket::TcpBound { domain: _, addr, backlog: _ } => socket.info()
                == SockInfoView::Tcp(addr),
            NewSocket::TcpBuilt { domain: _, addr } => socket.info() == SockInfoView::Tcp(addr),
            NewSocket::UdpBuilt { domain: _, addr } => socket.info() == SockInfoView::Udp(addr),
        },
{
}

/// Opening a socket that was inherited begins with the first descriptor that was inherited for it,
/// whatever else there is; that one leaves the inherited ones, and nothing else changes.
pub proof fn law_inherited_socket_is_adopted(
    before: EcdysisView,
    after: EcdysisView,
    socket: NewSocket,
    r: ListenStart,
    i: int,
)
    requires
        listen_started(before, after, socket, r),
        0 <= i < before.registry.inherited.len(),
        before.registry.inherited[i].sock_info.key() == socket.info().key(),
        forall|j: int|
            0 <= j < i ==> (#[trigger] before.registry.inherited[j]).sock_info.key()
                != socket.info().key(),
    ensures
        r is Adopt,
        r->Adopt_0.spec_fd() == before.registry.inherited[i].fd,
        r->Adopt_0.spec_info() == socket.info(),
        after.registry.inherited == before.registry.inherited.remove(i),
        after.registry.used == before.registry.used,
        after.notifier == before.notifier,
        after.pid_file == before.pid_file,
        after.child == before.child,
{
    law_first_entry_is_handed_out(before.registry, socket.info(), i, Ok::<i32, ()>(0));
}

/// Opening a socket that was not inherited begins with making it, as it was asked for; nothing
/// changes.
pub proof fn law_missing_socket_is_made(
    before: EcdysisView,
    after: EcdysisView,
    socket: NewSocket,
    r: ListenStart,
)
    requires
        listen_started(before, after, socket, r),
        forall|j: int|
            0 <= j < before.registry.inherited.len() ==> (
            #[trigger] before.registry.inherited[j]).sock_info.key() != socket.info().key(),
    ensures
        r is Create,
        r->Create_0.spec_socket() == socket,
        after == before,
{
    law_nothing_is_handed_out(before.registry, socket.info(), Ok::<i32, ()>(0));
}

/// How opening an inherited socket ends: with the first descriptor that was inherited for it. Its
/// duplicate is registered under what was asked for, where it could be made.
pub proof fn law_listening_on_what_was_inherited<E>(
    registry: RegistryView,
    info: SockInfoView,
    seen: ListenSeen<E>,
    i: int,
)
    requires
        0 <= i < registry.inherited.len(),
        registry.inherited[i].sock_info.key() == info.key(),
        forall|j: int|
            0 <= j < i ==> (#[trigger] registry.inherited[j]).sock_info.key() != info.key(),
    ensures
        listen_end(registry, info, seen) == ListenEnd::<E>::Inherited(registry.inherited[i].fd),
        listen_after(registry, info, seen).inherited == registry.inherited.remove(i),
        match seen.adopt_dup {
            Ok(copy) => listen_after(registry, info, seen).used == registry.used.push(
                ListenerView { fd: copy, sock_info: info },
            ),
            Err(_) => listen_after(registry, info, seen).used == registry.used,
        },
{
    law_first_entry_is_handed_out(registry, info, i, seen.adopt_dup);
}

/// How opening any other socket ends: with the new one, registered by its duplicate and under how
/// it describes itself, or with the first error on the way, and then nothing is registered.
pub proof fn law_listening_on_something_new<E>(
    registry: RegistryView,
    info: SockInfoView,
    seen: ListenSeen<E>,
)
    requires
        forall|j: int|
            0 <= j < registry.inherited.len() ==> (#[trigger] registry.inherited[j]).sock_info.key()
                != info.key(),
    ensures
        match (seen.created, seen.add_dup) {
            (Err(e), _) => listen_end(registry, info, seen) == ListenEnd::Failed(e)
                && listen_after(registry, info, seen) == registry,
            (Ok(_), Err(e)) => listen_end(registry, info, seen) == ListenEnd::Failed(e)
                && listen_after(registry, info, seen) == registry,
            (Ok(item), Ok(copy)) => {
                &&& listen_end(registry, info, seen) == ListenEnd::<E>::Created(item.fd)
                &&& listen_after(registry, info, seen).inherited == registry.inherited
                &&& listen_after(registry, info, seen).used == registry.used.push(
                    ListenerView { fd: copy, sock_info: item.sock_info@ },
                )
            },
        },
{
    law_nothing_is_handed_out(registry, info, seen.adopt_dup);
}

/// A change of the registry changes nothing else.
pub proof fn law_registry_is_replaced(manager: EcdysisView, registry: RegistryView)
    ensures
        manager.with_registry(registry).registry == registry,
        manager.with_registry(registry).notifier == manager.notifier,
        manager.with_registry(registry).pid_file == manager.pid_file,
        manager.with_registry(registry).child == manager.child,
{
}

/// A process whose parent waits for word tells it, when it declares itself ready, and no other
/// process does. Only what was inherited and not asked for goes, and the duty to tell.
pub proof fn law_parent_is_told(manager: EcdysisView)
    ensures
        manager.notifier ==> manager.ready_message() == Some(READY_MESSAGE),
        !manager.notifier ==> manager.ready_message() is None,
        manager.after_ready().registry.inherited.len() == 0,
        manager.after_ready().registry.used == manager.registry.used,
        !manager.after_ready().notifier,
        manager.after_ready().pid_file == manager.pid_file,
        manager.after_ready().child == manager.child,
{
}

/// What is done to declare a process ready: each descriptor is closed, then the pid is written,
/// where there is a file for it, and last the parent is told, where there is something to tell it,
/// with or without a pid file. Nothing else is done.
pub proof fn law_parent_is_told_last(
    close: Seq<i32>,
    pid_file: Option<Seq<u8>>,
    notify: Option<[u8; 2]>,
)
    ensures
        ({
            let ops = ready_ops(close, pid_file, notify);
            &&& ops.len() == close.len() + (if pid_file is Some {
                1int
            } else {
                0int
            }) + (if notify is Some {
                1int
            } else {
                0int
            })
            &&& forall|i: int|
                0 <= i < close.len() ==> #[trigger] ops[i] == ReadyOpView::Close(close[i])
            &&& pid_file matches Some(path) ==> ops[close.len() as int] == ReadyOpView::WritePid(
                path,
            )
            &&& notify matches Some(message) ==> ops.last() == ReadyOpView::Notify(message)
        }),
{
}

/// A process that was started by an upgrade, and has not declared itself ready, does tell its
/// parent: the message is the last thing that it does to declare itself ready.
pub proof fn law_child_tells_its_parent(child: EcdysisView, close: Seq<i32>)
    requires
        child.notifier,
    ensures
        ready_ops(close, child.pid_file, child.ready_message()).len() > 0,
        ready_ops(close, child.pid_file, child.ready_message()).last() == ReadyOpView::Notify(
            READY_MESSAGE,
        ),
{
    law_parent_is_told_last(close, child.pid_file, child.ready_message());
}

/// Operations are seen one by one, as they are.
pub proof fn law_ready_ops_are_what_they_are(ops: Seq<ReadyOp>)
    ensures
        ready_ops_view(ops).len() == ops.len(),
        forall|i: int|
            0 <= i < ops.len() ==> match ops[i] {
                ReadyOp::Close(fd) => #[trigger] ready_ops_view(ops)[i] == ReadyOpView::Close(fd),
                ReadyOp::WritePid(path) => ready_ops_view(ops)[i] == ReadyOpView::WritePid(
                    path.bytes@,
                ),
                ReadyOp::Notify(message) => ready_ops_view(ops)[i] == ReadyOpView::Notify(message),
            },
{
}

} // verus!
