//! Sockets that systemd made: found by their names in the first process, and inherited by all
//! later ones. None is ever made here.
use crate::ecdysis::ListenAdding;
use crate::handover::child_of;
use crate::handover::law_registered_socket_is_found;
use crate::path::SockPath;
use crate::registry::has_match;
use crate::registry::law_first_entry_is_handed_out;
use crate::registry::law_nothing_is_handed_out;
use crate::registry::Adopting;
use crate::registry::FdOp;
use crate::registry::ListenerInfo;
use crate::registry::ListenerView;
use crate::registry::SockAddr;
use crate::registry::SockInfo;
use crate::registry::SockInfoView;
use crate::tokio_ecdysis::manager::StopOnShutdown;
use crate::tokio_ecdysis::manager::TokioEcdysis;
use crate::tokio_ecdysis::manager::TokioView;
use vstd::prelude::*;

verus! {

/// Why the sockets of systemd could not be read. `E` is an error from the outside.
#[derive(Debug)]
pub enum SystemdSocketsReadError<E> {
    /// They were read before.
    DuplicateSystemdSocketsRead,
    Read(E),
}

/// Whether there is anything to read.
#[derive(Debug)]
pub enum SystemdRead {
    /// There is not: this process inherits its sockets.
    Skip,
    /// There is; the outcome goes to [`TokioEcdysis::systemd_sockets_read`].
    Read,
}

/// Why a socket of systemd could not be had. `E` is an error from the outside.
#[derive(Debug)]
pub enum SystemdSocketError<E> {
    /// The sockets were not read, or could not be.
    SystemdSocketsNotInitialized,
    /// The socket of that name is another one than expected.
    SockInfoIncorrect { found: SockInfo, expected: SockInfo },
    /// The parent left no such socket.
    SocketNotFoundInChildRegistry(SockInfo),
    Other(E),
}

/// The text for users where the socket of a name is another one than expected. The arguments are
/// the debug texts of what both are.
pub fn incorrect_message(found: &str, expected: &str) -> (r: String)
    ensures
        r@ == "systemd sock info "@ + found@ + " does not match expected sock info "@ + expected@,
{
    "systemd sock info ".to_owned().concat(found).concat(
        " does not match expected sock info ",
    ).concat(expected)
}

/// The text for users where the parent left no such socket. The argument is the debug text of what
/// it is.
pub fn not_found_message(info: &str) -> (r: String)
    ensures
        r@ == "socket not found with SockInfo "@ + info@,
{
    "socket not found with SockInfo ".to_owned().concat(info)
}

/// The first step of getting a socket of systemd.
pub enum SystemdStart {
    /// It was inherited.
    Adopt(SystemdAdopting),
    /// It has to be found by its name.
    Find(SystemdFinding),
}

/// An inherited socket on its way into use.
pub struct SystemdAdopting {
    adopting: Adopting,
}

/// A socket that has to be found by its name.
pub struct SystemdFinding {
    name: String,
    sock_info: SockInfo,
}

/// A socket that was found and is the right one, but is not registered yet.
pub struct SystemdAdding {
    adding: ListenAdding,
}

/// A socket, and whether it goes when the process stops.
pub struct SupervisedSystemd {
    pub start: SystemdStart,
    pub stop_on_shutdown: StopOnShutdown,
}

impl SystemdAdopting {
    pub closed spec fn spec_fd(&self) -> i32 {
        self.adopting.spec_fd()
    }

    pub closed spec fn spec_info(&self) -> SockInfoView {
        self.adopting.spec_info()
    }

    /// What has to be done, in this order, before [`SystemdAdopting::finish`]; the reply to the
    /// second operation is what it takes.
    pub fn ops(&self) -> (r: [FdOp; 2])
        ensures
            r@ == seq![FdOp::SetCloexec(self.spec_fd()), FdOp::Dup(self.spec_fd())],
    {
        self.adopting.ops()
    }

    /// Registers the duplicate for the child, where it could be made, and hands out the inherited
    /// descriptor.
    pub fn finish<E>(self, tokio_ecdysis: &mut TokioEcdysis, dup: Result<i32, E>) -> (r: i32)
        ensures
            r == self.spec_fd(),
            final(tokio_ecdysis)@ == old(tokio_ecdysis)@.with_registry(
                old(tokio_ecdysis)@.inner.registry.with_copy(dup, self.spec_info()),
            ),
    {
        tokio_ecdysis.inner.adopted(self.adopting, dup)
    }
}

impl SystemdFinding {
    pub closed spec fn spec_name(&self) -> Seq<char> {
        self.name@
    }

    pub closed spec fn spec_info(&self) -> SockInfoView {
        self.sock_info@
    }

    /// The name that systemd knows the socket by.
    pub fn name(&self) -> (r: &String)
        ensures
            r@ == self.spec_name(),
    {
        &self.name
    }

    /// Goes on with the socket of that name, as it describes itself. It has to be the one that was
    /// expected.
    pub fn found<E>(self, found: Result<ListenerInfo, E>) -> (r: Result<
        SystemdAdding,
        SystemdSocketError<E>,
    >)
        ensures
            match found {
                Err(e) => r == Err::<SystemdAdding, SystemdSocketError<E>>(
                    SystemdSocketError::Other(e),
                ),
                Ok(item) => if item@.sock_info.key() == self.spec_info().key() {
                    r is Ok && r->Ok_0.spec_item() == item@
                } else {
                    r matches Err(SystemdSocketError::SockInfoIncorrect { found, expected })
                        && found@ == item@.sock_info && expected@ == self.spec_info()
                },
            },
    {
        match found {
            Err(e) => Err(SystemdSocketError::Other(e)),
            Ok(item) => if item.sock_info.same(&self.sock_info) {
                Ok(SystemdAdding { adding: ListenAdding::new(item) })
            } else {
                Err(
                    SystemdSocketError::SockInfoIncorrect {
                        found: item.sock_info,
                        expected: self.sock_info,
                    },
                )
            },
        }
    }
}

impl SystemdAdding {
    pub closed spec fn spec_item(&self) -> ListenerView {
        self.adding.spec_item()
    }

    /// What has to be done before [`SystemdAdding::finish`], which takes the reply.
    pub fn op(&self) -> (r: FdOp)
        ensures
            r == FdOp::Dup(self.spec_item().fd),
    {
        self.adding.op()
    }

    /// Registers the socket, so that child processes inherit it.
    pub fn finish<E>(self, tokio_ecdysis: &mut TokioEcdysis, dup: Result<i32, E>) -> (r: Result<
        (),
        SystemdSocketError<E>,
    >)
        ensures
            match dup {
                Ok(copy) => r == Ok::<(), SystemdSocketError<E>>(()) && final(tokio_ecdysis)@
                    == old(tokio_ecdysis)@.with_registry(
                    old(tokio_ecdysis)@.inner.registry.with_used(copy, self.spec_item().sock_info),
                ),
                Err(e) => r == Err::<(), SystemdSocketError<E>>(SystemdSocketError::Other(e))
                    && final(tokio_ecdysis)@ == old(tokio_ecdysis)@,
            },
    {
        match self.adding.finish(&mut tokio_ecdysis.inner, dup) {
            Ok(_) => Ok(()),
            Err(e) => Err(SystemdSocketError::Other(e)),
        }
    }
}

/// `r` is the first step of getting the socket of systemd with this name, which is expected to be
/// `info`; `after` is what it leaves of `before`.
///
/// A child looks among what it inherited, and nowhere else. The first process needs the sockets of
/// systemd to have been read, and looks there by name.
pub open spec fn systemd_started<E>(
    before: TokioView,
    after: TokioView,
    name: Seq<char>,
    info: SockInfoView,
    r: Result<SystemdStart, SystemdSocketError<E>>,
) -> bool {
    if before.inner.child {
        &&& after == before.with_registry(before.inner.registry.after_take(info))
        &&& match before.inner.registry.taken(info) {
            Some(fd) => r matches Ok(SystemdStart::Adopt(k)) && k.spec_fd() == fd && k.spec_info()
                == info,
            None => r matches Err(SystemdSocketError::SocketNotFoundInChildRegistry(i)) && i@
                == info,
        }
    } else {
        &&& after == before
        &&& if before.systemd_sockets {
            r matches Ok(SystemdStart::Find(k)) && k.spec_name() == name && k.spec_info() == info
        } else {
            r matches Err(SystemdSocketError::SystemdSocketsNotInitialized)
        }
    }
}

impl TokioEcdysis {
    /// Whether the sockets of systemd have to be read. They are read once, and only by the first
    /// process.
    pub fn read_systemd_sockets<E>(&self) -> (r: Result<SystemdRead, SystemdSocketsReadError<E>>)
        ensures
            r == if self@.inner.child {
                Ok::<SystemdRead, SystemdSocketsReadError<E>>(SystemdRead::Skip)
            } else if self@.systemd_sockets {
                Err(SystemdSocketsReadError::DuplicateSystemdSocketsRead)
            } else {
                Ok(SystemdRead::Read)
            },
    {
        if self.is_child() {
            return Ok(SystemdRead::Skip);
        }
        if self.systemd_sockets {
            return Err(SystemdSocketsReadError::DuplicateSystemdSocketsRead);
        }
        Ok(SystemdRead::Read)
    }

    /// Goes on with the outcome of reading them.
    pub fn systemd_sockets_read<E>(&mut self, read: Result<(), E>) -> (r: Result<
        (),
        SystemdSocketsReadError<E>,
    >)
        ensures
            match read {
                Ok(_) => r == Ok::<(), SystemdSocketsReadError<E>>(()) && final(self)@ == (
                TokioView { systemd_sockets: true, ..old(self)@ }),
                Err(e) => r == Err::<(), SystemdSocketsReadError<E>>(
                    SystemdSocketsReadError::Read(e),
                ) && final(self)@ == old(self)@,
            },
    {
        match read {
            Ok(_) => {
                self.systemd_sockets = true;
                Ok(())
            },
            Err(e) => Err(SystemdSocketsReadError::Read(e)),
        }
    }

    /// Looks for a socket of systemd among the inherited ones.
    fn read_sock_from_registry_of_proto<E>(&mut self, sock_info: SockInfo) -> (r: Result<
        SystemdStart,
        SystemdSocketError<E>,
    >)
        ensures
            final(self)@ == old(self)@.with_registry(
                old(self)@.inner.registry.after_take(sock_info@),
            ),
            match old(self)@.inner.registry.taken(sock_info@) {
                Some(fd) => r matches Ok(SystemdStart::Adopt(k)) && k.spec_fd() == fd
                    && k.spec_info() == sock_info@,
                None => r matches Err(SystemdSocketError::SocketNotFoundInChildRegistry(i)) && i@
                    == sock_info@,
            },
    {
        match self.inner.adopt(sock_info) {
            Ok(adopting) => Ok(SystemdStart::Adopt(SystemdAdopting { adopting })),
            Err(sock_info) => Err(SystemdSocketError::SocketNotFoundInChildRegistry(sock_info)),
        }
    }

    /// Begins to get the socket of systemd with this name.
    fn systemd_sock_of_proto<E>(&mut self, name: String, sock_info: SockInfo) -> (r: Result<
        SystemdStart,
        SystemdSocketError<E>,
    >)
        ensures
            systemd_started(old(self)@, final(self)@, name@, sock_info@, r),
    {
        if self.is_child() {
            return self.read_sock_from_registry_of_proto(sock_info);
        }
        if self.systemd_sockets {
            Ok(SystemdStart::Find(SystemdFinding { name, sock_info }))
        } else {
            Err(SystemdSocketError::SystemdSocketsNotInitialized)
        }
    }

    /// Gets the unix listener of this name, which has to be bound to `path`.
    pub fn systemd_listen_unix<E>(
        &mut self,
        stop_on_shutdown: StopOnShutdown,
        name: String,
        path: SockPath,
    ) -> (r: Result<SupervisedSystemd, SystemdSocketError<E>>)
        ensures
            systemd_started(
                old(self)@,
                final(self)@,
                name@,
                SockInfoView::Unix(Some(path@)),
                unsupervised(r),
            ),
            r is Ok ==> r->Ok_0.stop_on_shutdown == stop_on_shutdown,
    {
        match self.systemd_sock_of_proto(name, SockInfo::Unix(Some(path))) {
            Ok(start) => Ok(SupervisedSystemd { start, stop_on_shutdown }),
            Err(e) => Err(e),
        }
    }

    /// Gets the TCP listener of this name, which has to be bound to `addr`.
    pub fn systemd_listen_tcp<E>(
        &mut self,
        stop_on_shutdown: StopOnShutdown,
        name: String,
        addr: SockAddr,
    ) -> (r: Result<SupervisedSystemd, SystemdSocketError<E>>)
        ensures
            systemd_started(
                old(self)@,
                final(self)@,
                name@,
                SockInfoView::Tcp(addr),
                unsupervised(r),
            ),
            r is Ok ==> r->Ok_0.stop_on_shutdown == stop_on_shutdown,
    {
        match self.systemd_sock_of_proto(name, SockInfo::Tcp(addr)) {
            Ok(start) => Ok(SupervisedSystemd { start, stop_on_shutdown }),
            Err(e) => Err(e),
        }
    }

    /// Gets the UDP socket of this name, which has to be bound to `addr`. It is not supervised.
    pub fn systemd_socket_udp<E>(&mut self, name: String, addr: SockAddr) -> (r: Result<
        SystemdStart,
        SystemdSocketError<E>,
    >)
        ensures
            systemd_started(old(self)@, final(self)@, name@, SockInfoView::Udp(addr), r),
    {
        self.systemd_sock_of_proto(name, SockInfo::Udp(addr))
    }

    /// Gets the UDP socket of this name, in order to read it as a stream.
    pub fn systemd_stream_udp<E>(
        &mut self,
        stop_on_shutdown: StopOnShutdown,
        name: String,
        addr: SockAddr,
    ) -> (r: Result<SupervisedSystemd, SystemdSocketError<E>>)
        ensures
            systemd_started(
                old(self)@,
                final(self)@,
                name@,
                SockInfoView::Udp(addr),
                unsupervised(r),
            ),
            r is Ok ==> r->Ok_0.stop_on_shutdown == stop_on_shutdown,
    {
        match self.systemd_socket_udp(name, addr) {
            Ok(start) => Ok(SupervisedSystemd { start, stop_on_shutdown }),
            Err(e) => Err(e),
        }
    }
}

/// The step itself, without what becomes of the socket.
pub open spec fn unsupervised<E>(r: Result<SupervisedSystemd, SystemdSocketError<E>>) -> Result<
    SystemdStart,
    SystemdSocketError<E>,
> {
    match r {
        Ok(s) => Ok(s.start),
        Err(e) => Err(e),
    }
}

/// What came back from the outside while a socket of systemd was got. Only the replies to what was
/// asked for count.
pub struct SystemdSeen<E> {
    /// The socket of the name, as it describes itself.
    pub found: Result<ListenerInfo, E>,
    /// The duplicate of its descriptor, or of the inherited one.
    pub dup: Result<i32, E>,
}

/// How getting a socket of systemd ended.
#[verifier::ext_equal]
pub enum SystemdEnd<E> {
    Socket(i32),
    NotInitialized,
    Incorrect { found: SockInfoView, expected: SockInfoView },
    NotFound(SockInfoView),
    Other(E),
}

pub open spec fn systemd_end_view<E>(r: Result<i32, SystemdSocketError<E>>) -> SystemdEnd<E> {
    match r {
        Ok(fd) => SystemdEnd::Socket(fd),
        Err(SystemdSocketError::SystemdSocketsNotInitialized) => SystemdEnd::NotInitialized,
        Err(SystemdSocketError::SockInfoIncorrect { found, expected }) => SystemdEnd::Incorrect {
            found: found@,
            expected: expected@,
        },
        Err(SystemdSocketError::SocketNotFoundInChildRegistry(info)) => SystemdEnd::NotFound(info@),
        Err(SystemdSocketError::Other(e)) => SystemdEnd::Other(e),
    }
}

/// How getting a socket of systemd ends.
pub open spec fn systemd_end<E>(
    before: TokioView,
    info: SockInfoView,
    seen: SystemdSeen<E>,
) -> SystemdEnd<E> {
    if before.inner.child {
        match before.inner.registry.taken(info) {
            Some(fd) => SystemdEnd::Socket(fd),
            None => SystemdEnd::NotFound(info),
        }
    } else if !before.systemd_sockets {
        SystemdEnd::NotInitialized
    } else {
        match (seen.found, seen.dup) {
            (Err(e), _) => SystemdEnd::Other(e),
            (Ok(item), dup) => if item@.sock_info.key() != info.key() {
                SystemdEnd::Incorrect { found: item@.sock_info, expected: info }
            } else {
                match dup {
                    Ok(_) => SystemdEnd::Socket(item.fd),
                    Err(e) => SystemdEnd::Other(e),
                }
            },
        }
    }
}

/// What is registered after a socket of systemd was got, or could not be.
pub open spec fn systemd_after<E>(
    before: TokioView,
    info: SockInfoView,
    seen: SystemdSeen<E>,
) -> TokioView {
    let registry = before.inner.registry;
    before.with_registry(
        if before.inner.child {
            registry.after_inherit(info, seen.dup)
        } else if systemd_end(before, info, seen) is Socket {
            registry.with_used(seen.dup->Ok_0, seen.found->Ok_0@.sock_info)
        } else {
            registry
        },
    )
}

impl TokioEcdysis {
    /// Puts what was seen of the outside through the steps of getting a socket of systemd.
    pub fn systemd_outcome<E>(
        &mut self,
        name: String,
        sock_info: SockInfo,
        seen: SystemdSeen<E>,
    ) -> (r: Result<i32, SystemdSocketError<E>>)
        ensures
            systemd_end_view(r) == systemd_end(old(self)@, sock_info@, seen),
            final(self)@ == systemd_after(old(self)@, sock_info@, seen),
    {
        let finding: SystemdFinding = match self.systemd_sock_of_proto(name, sock_info) {
            Ok(SystemdStart::Adopt(adopting)) => {
                return Ok(adopting.finish(self, seen.dup));
            },
            Ok(SystemdStart::Find(finding)) => finding,
            Err(e) => {
                return Err(e);
            },
        };
        let adding: SystemdAdding = match finding.found(seen.found) {
            Ok(adding) => adding,
            Err(e) => {
                return Err(e);
            },
        };
        let fd: i32 = adding.adding.fd();
        match adding.finish(self, seen.dup) {
            Ok(_) => Ok(fd),
            Err(e) => Err(e),
        }
    }
}

/// A socket of systemd outlives the first process: once that has got it, its child gets the
/// duplicate that was registered, without systemd.
pub proof fn law_systemd_socket_is_inherited<E>(
    first: TokioView,
    info: SockInfoView,
    seen: SystemdSeen<E>,
    child: TokioView,
    in_child: SystemdSeen<E>,
)
    requires
        !first.inner.child,
        systemd_end(first, info, seen) is Socket,
        !has_match(first.inner.registry.used, info),
        child.inner.child,
        child.inner.registry == child_of(systemd_after(first, info, seen).inner.registry),
    ensures
        systemd_end(child, info, in_child) == SystemdEnd::<E>::Socket(seen.dup->Ok_0),
{
    law_registered_socket_is_found(
        first.inner.registry,
        seen.found->Ok_0@.sock_info,
        info,
        seen.dup->Ok_0,
    );
}

/// No socket is ever made: what is got was inherited, or is the one that systemd has under the
/// name and that is bound as expected.
pub proof fn law_systemd_socket_is_never_made<E>(
    before: TokioView,
    info: SockInfoView,
    seen: SystemdSeen<E>,
    fd: i32,
)
    requires
        systemd_end(before, info, seen) == SystemdEnd::<E>::Socket(fd),
    ensures
        if before.inner.child {
            before.inner.registry.taken(info) == Some(fd)
        } else {
            &&& seen.found matches Ok(item) && item.fd == fd && item@.sock_info.key() == info.key()
        },
{
}

/// A child that asks for a socket of systemd gets the first descriptor that it inherited for it,
/// and has its duplicate registered, where that could be made.
pub proof fn law_child_gets_what_it_inherited<E>(
    before: TokioView,
    info: SockInfoView,
    seen: SystemdSeen<E>,
    i: int,
)
    requires
        before.inner.child,
        0 <= i < before.inner.registry.inherited.len(),
        before.inner.registry.inherited[i].sock_info.key() == info.key(),
        forall|j: int|
            0 <= j < i ==> (#[trigger] before.inner.registry.inherited[j]).sock_info.key()
                != info.key(),
    ensures
        systemd_end(before, info, seen) == SystemdEnd::<E>::Socket(
            before.inner.registry.inherited[i].fd,
        ),
        ({
            let after = systemd_after(before, info, seen);
            &&& after.inner.registry.inherited == before.inner.registry.inherited.remove(i)
            &&& match seen.dup {
                Ok(copy) => after.inner.registry.used == before.inner.registry.used.push(
                    ListenerView { fd: copy, sock_info: info },
                ),
                Err(_) => after.inner.registry.used == before.inner.registry.used,
            }
            &&& after.inner.child
            &&& after.inner.notifier == before.inner.notifier
            &&& after.inner.pid_file == before.inner.pid_file
            &&& after.systemd_sockets == before.systemd_sockets
        }),
{
    law_first_entry_is_handed_out(before.inner.registry, info, i, seen.dup);
}

/// A child that inherited no such socket gets an error that names it, whatever systemd has, and
/// nothing changes.
pub proof fn law_child_gets_nothing_else<E>(
    before: TokioView,
    info: SockInfoView,
    seen: SystemdSeen<E>,
)
    requires
        before.inner.child,
        forall|j: int|
            0 <= j < before.inner.registry.inherited.len() ==> (
            #[trigger] before.inner.registry.inherited[j]).sock_info.key() != info.key(),
    ensures
        systemd_end(before, info, seen) == SystemdEnd::<E>::NotFound(info),
        systemd_after(before, info, seen) == before,
{
    law_nothing_is_handed_out(before.inner.registry, info, seen.dup);
}

/// The first process gets the socket that systemd has under the name, if the sockets were read and
/// it is the right one; its duplicate is registered under how it describes itself. Otherwise it
/// gets the error, and nothing changes.
pub proof fn law_first_process_asks_systemd<E>(
    before: TokioView,
    info: SockInfoView,
    seen: SystemdSeen<E>,
)
    requires
        !before.inner.child,
    ensures
        ({
            let end = systemd_end(before, info, seen);
            let after = systemd_after(before, info, seen);
            match (before.systemd_sockets, seen.found, seen.dup) {
                (false, _, _) => end is NotInitialized && after == before,
                (true, Err(e), _) => end == SystemdEnd::Other(e) && after == before,
                (true, Ok(item), dup) => if item.sock_info@.key() != info.key() {
                    end == (SystemdEnd::<E>::Incorrect {
                        found: item.sock_info@,
                        expected: info,
                    }) && after == before
                } else {
                    match dup {
                        Err(e) => end == SystemdEnd::Other(e) && after == before,
                        Ok(copy) => {
                            &&& end == SystemdEnd::<E>::Socket(item.fd)
                            &&& after.inner.registry.used == before.inner.registry.used.push(
                                ListenerView { fd: copy, sock_info: item.sock_info@ },
                            )
                            &&& after.inner.registry.inherited == before.inner.registry.inherited
                            &&& !after.inner.child
                            &&& after.inner.notifier == before.inner.notifier
                            &&& after.inner.pid_file == before.inner.pid_file
                            &&& after.systemd_sockets
                        },
                    }
                },
            }
        }),
{
}

/// How getting a socket of systemd begins in a child: with the first descriptor that was inherited
/// for it, which leaves the inherited ones, or with an error that names the socket.
pub proof fn law_child_begins_with_what_it_inherited<E>(
    before: TokioView,
    after: TokioView,
    name: Seq<char>,
    info: SockInfoView,
    r: Result<SystemdStart, SystemdSocketError<E>>,
    i: int,
)
    requires
        systemd_started(before, after, name, info, r),
        before.inner.child,
    ensures
        0 <= i < before.inner.registry.inherited.len()
            && before.inner.registry.inherited[i].sock_info.key() == info.key() && (forall|j: int|
            0 <= j < i ==> (#[trigger] before.inner.registry.inherited[j]).sock_info.key()
                != info.key()) ==> {
            &&& r is Ok
            &&& r->Ok_0 is Adopt
            &&& r->Ok_0->Adopt_0.spec_fd() == before.inner.registry.inherited[i].fd
            &&& r->Ok_0->Adopt_0.spec_info() == info
            &&& after.inner.registry.inherited == before.inner.registry.inherited.remove(i)
            &&& after.inner.registry.used == before.inner.registry.used
        },
        (forall|j: int|
            0 <= j < before.inner.registry.inherited.len() ==> (
            #[trigger] before.inner.registry.inherited[j]).sock_info.key() != info.key()) ==> {
            &&& r is Err
            &&& r->Err_0 is SocketNotFoundInChildRegistry
            &&& r->Err_0->SocketNotFoundInChildRegistry_0@ == info
            &&& after == before
        },
        after.inner.child,
        after.inner.notifier == before.inner.notifier,
        after.inner.pid_file == before.inner.pid_file,
        after.systemd_sockets == before.systemd_sockets,
{
    let registry = before.inner.registry;
    if 0 <= i < registry.inherited.len() && registry.inherited[i].sock_info.key() == info.key() && (
    forall|j: int|
        0 <= j < i ==> (#[trigger] registry.inherited[j]).sock_info.key() != info.key()) {
        law_first_entry_is_handed_out(registry, info, i, Ok::<i32, ()>(0));
    }
    if forall|j: int|
        0 <= j < registry.inherited.len() ==> (#[trigger] registry.inherited[j]).sock_info.key()
            != info.key() {
        law_nothing_is_handed_out(registry, info, Ok::<i32, ()>(0));
    }
}

/// How it begins in the first process: by asking systemd for the name, if its sockets were read.
pub proof fn law_first_process_begins_with_the_name<E>(
    before: TokioView,
    after: TokioView,
    name: Seq<char>,
    info: SockInfoView,
    r: Result<SystemdStart, SystemdSocketError<E>>,
)
    requires
        systemd_started(before, after, name, info, r),
        !before.inner.child,
    ensures
        after == before,
        before.systemd_sockets ==> r is Ok && r->Ok_0 is Find && r->Ok_0->Find_0.spec_name() == name
            && r->Ok_0->Find_0.spec_info() == info,
        !before.systemd_sockets ==> r is Err && r->Err_0 is SystemdSocketsNotInitialized,
{
}

/// The outcome is seen as it is, and so is a step that is given with its supervision.
pub proof fn law_systemd_outcome_is_what_it_is<E>(
    r: Result<i32, SystemdSocketError<E>>,
    s: Result<SupervisedSystemd, SystemdSocketError<E>>,
)
    ensures
        match r {
            Ok(fd) => systemd_end_view(r) == SystemdEnd::<E>::Socket(fd),
            Err(SystemdSocketError::SystemdSocketsNotInitialized) => systemd_end_view(r)
                is NotInitialized,
            Err(SystemdSocketError::SockInfoIncorrect { found, expected }) => systemd_end_view(r)
                == (SystemdEnd::<E>::Incorrect { found: found@, expected: expected@ }),
            Err(SystemdSocketError::SocketNotFoundInChildRegistry(info)) => systemd_end_view(r)
                == SystemdEnd::<E>::NotFound(info@),
            Err(SystemdSocketError::Other(e)) => systemd_end_view(r) == SystemdEnd::Other(e),
        },
        match s {
            Ok(supervised) => unsupervised(s) == Ok::<SystemdStart, SystemdSocketError<E>>(
                supervised.start,
            ),
            Err(e) => unsupervised(s) == Err::<SystemdStart, SystemdSocketError<E>>(e),
        },
{
}

} // verus!
