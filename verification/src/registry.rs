//! The descriptors that pass from one process to the next: what a process was handed by its
//! parent, and what it will hand to its child.
use crate::path::path_key;
use crate::path::PathKey;
use crate::path::SockPath;
use vstd::prelude::*;
use vstd::std_specs::cmp::PartialEqSpec;

verus! {

/// The address of an internet socket.
#[allow(inconsistent_fields)]
#[derive(Clone, Copy, Debug, PartialEq, Eq, Structural)]
pub enum SockAddr {
    V4 { ip: u32, port: u16 },
    V6 { ip: u128, port: u16, flowinfo: u32, scope_id: u32 },
}

/// What a registered descriptor is, and what it is found again by.
///
/// The variants travel to the child by their position: new ones go to the end.
#[derive(Debug)]
pub enum SockInfo {
    Unix(Option<SockPath>),
    Tcp(SockAddr),
    Udp(SockAddr),
    /// A datagram socket that is bound to no path. The name only identifies it within the
    /// registry.
    UnboundUnixDatagram(String),
    UnixSeqpacket(Option<SockPath>),
}

/// [`SockInfo`] with its bytes and characters as sequences.
#[verifier::ext_equal]
pub enum SockInfoView {
    Unix(Option<Seq<u8>>),
    Tcp(SockAddr),
    Udp(SockAddr),
    UnboundUnixDatagram(Seq<char>),
    UnixSeqpacket(Option<Seq<u8>>),
}

/// What two [`SockInfo`] values are compared by: paths by their keys, the rest as it is.
pub enum SockKey {
    Unix(Option<PathKey>),
    Tcp(SockAddr),
    Udp(SockAddr),
    UnboundUnixDatagram(Seq<char>),
    UnixSeqpacket(Option<PathKey>),
}

pub open spec fn opt_path_view(path: Option<SockPath>) -> Option<Seq<u8>> {
    match path {
        Some(p) => Some(p@),
        None => None,
    }
}

pub open spec fn opt_path_key(path: Option<Seq<u8>>) -> Option<PathKey> {
    match path {
        Some(p) => Some(path_key(p)),
        None => None,
    }
}

impl View for SockInfo {
    type V = SockInfoView;

    open spec fn view(&self) -> SockInfoView {
        match *self {
            SockInfo::Unix(path) => SockInfoView::Unix(opt_path_view(path)),
            SockInfo::Tcp(addr) => SockInfoView::Tcp(addr),
            SockInfo::Udp(addr) => SockInfoView::Udp(addr),
            SockInfo::UnboundUnixDatagram(name) => SockInfoView::UnboundUnixDatagram(name@),
            SockInfo::UnixSeqpacket(path) => SockInfoView::UnixSeqpacket(opt_path_view(path)),
        }
    }
}

impl SockInfoView {
    pub open spec fn key(self) -> SockKey {
        match self {
            SockInfoView::Unix(path) => SockKey::Unix(opt_path_key(path)),
            SockInfoView::Tcp(addr) => SockKey::Tcp(addr),
            SockInfoView::Udp(addr) => SockKey::Udp(addr),
            SockInfoView::UnboundUnixDatagram(name) => SockKey::UnboundUnixDatagram(name),
            SockInfoView::UnixSeqpacket(path) => SockKey::UnixSeqpacket(opt_path_key(path)),
        }
    }
}

fn same_opt_path(a: &Option<SockPath>, b: &Option<SockPath>) -> (r: bool)
    ensures
        r == (opt_path_key(opt_path_view(*a)) == opt_path_key(opt_path_view(*b))),
{
    match (a, b) {
        (Some(x), Some(y)) => x.same_path(y),
        (None, None) => true,
        _ => false,
    }
}

fn copy_opt_path(a: &Option<SockPath>) -> (r: Option<SockPath>)
    ensures
        opt_path_view(r) == opt_path_view(*a),
{
    match a {
        Some(p) => Some(p.clone()),
        None => None,
    }
}

impl SockInfo {
    /// Whether both stand for the same socket.
    pub fn same(&self, other: &SockInfo) -> (r: bool)
        ensures
            r == (self@.key() == other@.key()),
    {
        match (self, other) {
            (SockInfo::Unix(a), SockInfo::Unix(b)) => same_opt_path(a, b),
            (SockInfo::Tcp(a), SockInfo::Tcp(b)) => *a == *b,
            (SockInfo::Udp(a), SockInfo::Udp(b)) => *a == *b,
            (SockInfo::UnboundUnixDatagram(a), SockInfo::UnboundUnixDatagram(b)) => a.eq(b),
            (SockInfo::UnixSeqpacket(a), SockInfo::UnixSeqpacket(b)) => same_opt_path(a, b),
            _ => false,
        }
    }
}

impl PartialEq for SockInfo {
    fn eq(&self, other: &SockInfo) -> (r: bool) {
        self.same(other)
    }
}

impl vstd::std_specs::cmp::PartialEqSpecImpl for SockInfo {
    open spec fn obeys_eq_spec() -> bool {
        true
    }

    open spec fn eq_spec(&self, other: &SockInfo) -> bool {
        self@.key() == other@.key()
    }
}

impl Clone for SockInfo {
    fn clone(&self) -> (r: Self)
        ensures
            r@ == self@,
    {
        match self {
            SockInfo::Unix(path) => SockInfo::Unix(copy_opt_path(path)),
            SockInfo::Tcp(addr) => SockInfo::Tcp(*addr),
            SockInfo::Udp(addr) => SockInfo::Udp(*addr),
            SockInfo::UnboundUnixDatagram(name) => SockInfo::UnboundUnixDatagram(name.clone()),
            SockInfo::UnixSeqpacket(path) => SockInfo::UnixSeqpacket(copy_opt_path(path)),
        }
    }
}

/// A descriptor, and what it is.
#[derive(Debug)]
pub struct ListenerInfo {
    pub fd: i32,
    pub sock_info: SockInfo,
}

#[verifier::ext_equal]
pub struct ListenerView {
    pub fd: i32,
    pub sock_info: SockInfoView,
}

impl View for ListenerInfo {
    type V = ListenerView;

    open spec fn view(&self) -> ListenerView {
        ListenerView { fd: self.fd, sock_info: self.sock_info@ }
    }
}

impl PartialEq for ListenerInfo {
    fn eq(&self, other: &ListenerInfo) -> (r: bool) {
        self.fd == other.fd && self.sock_info.same(&other.sock_info)
    }
}

impl vstd::std_specs::cmp::PartialEqSpecImpl for ListenerInfo {
    open spec fn obeys_eq_spec() -> bool {
        true
    }

    open spec fn eq_spec(&self, other: &ListenerInfo) -> bool {
        self.fd == other.fd && self.sock_info@.key() == other.sock_info@.key()
    }
}

impl Clone for ListenerInfo {
    fn clone(&self) -> (r: Self)
        ensures
            r@ == self@,
    {
        ListenerInfo { fd: self.fd, sock_info: self.sock_info.clone() }
    }
}

pub open spec fn listeners_view(s: Seq<ListenerInfo>) -> Seq<ListenerView> {
    s.map_values(|l: ListenerInfo| l@)
}

/// The descriptors of a list, in its order.
pub open spec fn fds_of(s: Seq<ListenerView>) -> Seq<i32> {
    s.map_values(|l: ListenerView| l.fd)
}

/// `i` is the first place of `s` whose entry stands for the same socket as `info`.
pub open spec fn is_first_match(s: Seq<ListenerView>, info: SockInfoView, i: int) -> bool {
    &&& 0 <= i < s.len()
    &&& s[i].sock_info.key() == info.key()
    &&& forall|j: int| 0 <= j < i ==> (#[trigger] s[j]).sock_info.key() != info.key()
}

/// Some entry of `s` stands for the same socket as `info`.
pub open spec fn has_match(s: Seq<ListenerView>, info: SockInfoView) -> bool {
    exists|i: int| 0 <= i < s.len() && (#[trigger] s[i]).sock_info.key() == info.key()
}

/// The place of the first match, where there is one.
pub open spec fn first_match(s: Seq<ListenerView>, info: SockInfoView) -> int {
    choose|i: int| is_first_match(s, info, i)
}

/// Where there is a match there is a first one, and only one.
pub proof fn lemma_first_match(s: Seq<ListenerView>, info: SockInfoView)
    requires
        has_match(s, info),
    ensures
        is_first_match(s, info, first_match(s, info)),
        forall|i: int| is_first_match(s, info, i) ==> i == first_match(s, info),
{
    let k = choose|k: int| 0 <= k < s.len() && (#[trigger] s[k]).sock_info.key() == info.key();
    lemma_some_first_match(s, info, k);
    let f = first_match(s, info);
    assert forall|i: int| is_first_match(s, info, i) implies i == f by {
        if i < f {
            assert(s[i].sock_info.key() != info.key());
        } else if f < i {
            assert(s[f].sock_info.key() != info.key());
        }
    }
}

/// At or before a match there is a first match.
proof fn lemma_some_first_match(s: Seq<ListenerView>, info: SockInfoView, k: int)
    requires
        0 <= k < s.len(),
        s[k].sock_info.key() == info.key(),
    ensures
        exists|i: int| is_first_match(s, info, i),
    decreases k,
{
    if exists|j: int| 0 <= j < k && (#[trigger] s[j]).sock_info.key() == info.key() {
        let j = choose|j: int| 0 <= j < k && (#[trigger] s[j]).sock_info.key() == info.key();
        lemma_some_first_match(s, info, j);
    } else {
        assert(is_first_match(s, info, k));
    }
}

/// What a registry holds.
#[verifier::ext_equal]
pub struct RegistryView {
    /// Handed down by the parent and not asked for yet.
    pub inherited: Seq<ListenerView>,
    /// In use by this process, and to be handed down to its child.
    pub used: Seq<ListenerView>,
}

impl RegistryView {
    /// The inherited descriptor for `info`.
    pub open spec fn taken(self, info: SockInfoView) -> Option<i32> {
        if has_match(self.inherited, info) {
            Some(self.inherited[first_match(self.inherited, info)].fd)
        } else {
            None
        }
    }

    /// The registry without the entry that [`RegistryView::taken`] speaks of.
    pub open spec fn after_take(self, info: SockInfoView) -> RegistryView {
        if has_match(self.inherited, info) {
            RegistryView {
                inherited: self.inherited.remove(first_match(self.inherited, info)),
                used: self.used,
            }
        } else {
            self
        }
    }

    /// The registry with `info` in use under the descriptor `fd`.
    pub open spec fn with_used(self, fd: i32, info: SockInfoView) -> RegistryView {
        RegistryView {
            inherited: self.inherited,
            used: self.used.push(ListenerView { fd, sock_info: info }),
        }
    }

    /// The registry with `info` in use under a duplicate, where that could be made.
    pub open spec fn with_copy<E>(self, dup: Result<i32, E>, info: SockInfoView) -> RegistryView {
        match dup {
            Ok(copy) => self.with_used(copy, info),
            Err(_) => self,
        }
    }

    /// The registry after a request for `info`, whose duplication came to `dup`.
    pub open spec fn after_inherit<E>(
        self,
        info: SockInfoView,
        dup: Result<i32, E>,
    ) -> RegistryView {
        if has_match(self.inherited, info) {
            self.after_take(info).with_copy(dup, info)
        } else {
            self
        }
    }

    /// All descriptors, the used ones first.
    pub open spec fn all_fds(self) -> Seq<i32> {
        fds_of(self.used) + fds_of(self.inherited)
    }

    pub open spec fn empty() -> RegistryView {
        RegistryView { inherited: Seq::empty(), used: Seq::empty() }
    }
}

/// Descriptor tracking.
///
/// `used_fds` tracks the sockets that were opened through the library; they are written to the
/// child, where they wind up in `inherited_fds`. What is stored there is a duplicate of the
/// descriptor that the caller got. `inherited_fds` is searched by [`ListenerRegistry::inherit`];
/// a match is removed and returned.
pub struct ListenerRegistry {
    inherited_fds: Vec<ListenerInfo>,
    used_fds: Vec<ListenerInfo>,
}

impl View for ListenerRegistry {
    type V = RegistryView;

    closed spec fn view(&self) -> RegistryView {
        RegistryView {
            inherited: listeners_view(self.inherited_fds@),
            used: listeners_view(self.used_fds@),
        }
    }
}

/// The place of the first entry that stands for the same socket as `info`.
fn position(list: &Vec<ListenerInfo>, info: &SockInfo) -> (r: Option<usize>)
    ensures
        match r {
            Some(i) => has_match(listeners_view(list@), info@) && i == first_match(
                listeners_view(list@),
                info@,
            ) && i < list.len(),
            None => !has_match(listeners_view(list@), info@),
        },
{
    let ghost s = listeners_view(list@);
    let mut i: usize = 0;
    while i < list.len()
        invariant
            i <= list.len(),
            s == listeners_view(list@),
            forall|j: int| 0 <= j < i ==> (#[trigger] s[j]).sock_info.key() != info@.key(),
        decreases list.len() - i,
    {
        assert(s[i as int] == list@[i as int]@);
        if list[i].sock_info.same(info) {
            proof {
                assert(is_first_match(s, info@, i as int));
                lemma_first_match(s, info@);
            }
            return Some(i);
        }
        i = i + 1;
    }
    None
}

/// The descriptors of a list.
fn list_fds(list: &Vec<ListenerInfo>) -> (r: Vec<i32>)
    ensures
        r@ == fds_of(listeners_view(list@)),
{
    let mut fds: Vec<i32> = Vec::new();
    let mut i: usize = 0;
    while i < list.len()
        invariant
            i <= list.len(),
            fds@.len() == i,
            forall|j: int| 0 <= j < i ==> fds@[j] == (#[trigger] list@[j]).fd,
        decreases list.len() - i,
    {
        fds.push(list[i].fd);
        i = i + 1;
    }
    assert(fds@ =~= fds_of(listeners_view(list@)));
    fds
}

/// A list with the same entries.
pub fn copy_listeners(list: &Vec<ListenerInfo>) -> (r: Vec<ListenerInfo>)
    ensures
        listeners_view(r@) == listeners_view(list@),
{
    let mut copy: Vec<ListenerInfo> = Vec::new();
    let mut i: usize = 0;
    while i < list.len()
        invariant
            i <= list.len(),
            copy@.len() == i,
            forall|j: int| 0 <= j < i ==> (#[trigger] copy@[j])@ == list@[j]@,
        decreases list.len() - i,
    {
        copy.push(list[i].clone());
        i = i + 1;
    }
    assert(listeners_view(copy@) =~= listeners_view(list@));
    copy
}

proof fn lemma_listeners_push(s: Seq<ListenerInfo>, x: ListenerInfo)
    ensures
        listeners_view(s.push(x)) == listeners_view(s).push(x@),
{
    assert(listeners_view(s.push(x)) =~= listeners_view(s).push(x@));
}

proof fn lemma_listeners_remove(s: Seq<ListenerInfo>, i: int)
    requires
        0 <= i < s.len(),
    ensures
        listeners_view(s.remove(i)) == listeners_view(s).remove(i),
{
    assert(listeners_view(s.remove(i)) =~= listeners_view(s).remove(i));
}

/// An operation on one descriptor.
#[derive(Clone, Copy, Debug, PartialEq, Eq, Structural)]
pub enum FdOp {
    /// Close the descriptor when this process executes another program.
    SetCloexec(i32),
    /// Keep the descriptor open when this process executes another program.
    UnsetCloexec(i32),
    /// Make a duplicate, with the same attributes; the reply is the duplicate.
    Dup(i32),
    /// Close the descriptor; a failure is of no interest.
    Close(i32),
}

/// An inherited descriptor on its way into use: taken, but not yet handed on.
pub struct Adopting {
    fd: i32,
    cloexec: FdOp,
    sock_info: SockInfo,
}

impl Adopting {
    #[verifier::type_invariant]
    closed spec fn wf(&self) -> bool {
        self.cloexec == FdOp::SetCloexec(self.fd)
    }

    pub closed spec fn spec_fd(&self) -> i32 {
        self.fd
    }

    pub closed spec fn spec_info(&self) -> SockInfoView {
        self.sock_info@
    }

    /// The descriptor that was taken.
    pub fn fd(&self) -> (r: i32)
        ensures
            r == self.spec_fd(),
    {
        self.fd
    }

    /// What has to be done, in this order, before [`Adopting::finish`] can be called: an
    /// inherited descriptor outlives an exec, which has to end, and the copy for the child is
    /// made. The reply to the second operation is what `finish` takes.
    pub fn ops(&self) -> (r: [FdOp; 2])
        ensures
            r@ == seq![FdOp::SetCloexec(self.spec_fd()), FdOp::Dup(self.spec_fd())],
    {
        proof {
            use_type_invariant(self);
        }
        let ops: [FdOp; 2] = [self.cloexec, FdOp::Dup(self.fd)];
        assert(ops@ =~= seq![FdOp::SetCloexec(self.fd), FdOp::Dup(self.fd)]);
        ops
    }

    /// Registers the duplicate, and hands out the inherited descriptor. Where the duplicate could
    /// not be made, nothing is registered for the child; the descriptor is handed out all the
    /// same.
    pub fn finish<E>(self, registry: &mut ListenerRegistry, dup: Result<i32, E>) -> (r: i32)
        ensures
            r == self.spec_fd(),
            final(registry)@ == old(registry)@.with_copy(dup, self.spec_info()),
    {
        let Adopting { fd, sock_info, .. } = self;
        if let Ok(copy) = dup {
            let ghost before = registry.used_fds@;
            registry.used_fds.push(ListenerInfo { fd: copy, sock_info });
            proof {
                lemma_listeners_push(before, registry.used_fds@.last());
                assert(before.push(registry.used_fds@.last()) =~= registry.used_fds@);
            }
        }
        fd
    }
}

impl ListenerRegistry {
    /// The registry of a process that was not started by an upgrade.
    pub fn new() -> (r: Self)
        ensures
            r@ == RegistryView::empty(),
    {
        let r = ListenerRegistry { inherited_fds: Vec::new(), used_fds: Vec::new() };
        assert(r@.inherited =~= Seq::empty());
        assert(r@.used =~= Seq::empty());
        r
    }

    /// The registry of a process that was handed `inherited` by its parent.
    pub fn from_inherited(inherited: Vec<ListenerInfo>) -> (r: Self)
        ensures
            r@ == (RegistryView {
                inherited: listeners_view(inherited@),
                used: Seq::empty(),
            }),
    {
        let r = ListenerRegistry { inherited_fds: inherited, used_fds: Vec::new() };
        assert(r@.used =~= Seq::empty());
        r
    }

    /// Removes the first inherited descriptor for `sock_info`, and returns it, with the operation
    /// that is due on it: an inherited descriptor outlives an exec, which has to end.
    pub fn take(&mut self, sock_info: &SockInfo) -> (r: Option<(i32, FdOp)>)
        ensures
            r == match old(self)@.taken(sock_info@) {
                Some(fd) => Some((fd, FdOp::SetCloexec(fd))),
                None => None,
            },
            final(self)@ == old(self)@.after_take(sock_info@),
    {
        match position(&self.inherited_fds, sock_info) {
            Some(p) => {
                proof {
                    lemma_listeners_remove(self.inherited_fds@, p as int);
                    assert(listeners_view(self.inherited_fds@)[p as int]
                        == self.inherited_fds@[p as int]@);
                }
                let li = self.inherited_fds.remove(p);
                Some((li.fd, FdOp::SetCloexec(li.fd)))
            },
            None => None,
        }
    }

    /// Takes the inherited descriptor for `sock_info`, in order to put it to use; where there is
    /// none, gives `sock_info` back.
    pub fn inherit(&mut self, sock_info: SockInfo) -> (r: Result<Adopting, SockInfo>)
        ensures
            final(self)@ == old(self)@.after_take(sock_info@),
            match old(self)@.taken(sock_info@) {
                Some(fd) => r is Ok && r->Ok_0.spec_fd() == fd && r->Ok_0.spec_info()
                    == sock_info@,
                None => r is Err && r->Err_0@ == sock_info@,
            },
    {
        match self.take(&sock_info) {
            Some((fd, cloexec)) => Ok(Adopting { fd, cloexec, sock_info }),
            None => Err(sock_info),
        }
    }

    /// Registers `item` for the child under `dup`, the reply to [`FdOp::Dup`] on its descriptor.
    /// Where the duplicate could not be made, that error is returned and nothing is registered.
    pub fn add<E>(&mut self, item: ListenerInfo, dup: Result<i32, E>) -> (r: Result<(), E>)
        ensures
            match dup {
                Ok(copy) => r == Ok::<(), E>(()) && final(self)@ == old(self)@.with_used(
                    copy,
                    item@.sock_info,
                ),
                Err(e) => r == Err::<(), E>(e) && final(self)@ == old(self)@,
            },
    {
        match dup {
            Ok(copy) => {
                let ghost before = self.used_fds@;
                self.used_fds.push(ListenerInfo { fd: copy, sock_info: item.sock_info });
                proof {
                    lemma_listeners_push(before, self.used_fds@.last());
                    assert(before.push(self.used_fds@.last()) =~= self.used_fds@);
                }
                Ok(())
            },
            Err(e) => Err(e),
        }
    }

    /// Forgets the first used descriptor for `sock_info`. The result has to be closed.
    pub fn remove_used(&mut self, sock_info: &SockInfo) -> (r: Option<i32>)
        ensures
            final(self)@.inherited == old(self)@.inherited,
            if has_match(old(self)@.used, sock_info@) {
                let i = first_match(old(self)@.used, sock_info@);
                r == Some(old(self)@.used[i].fd) && final(self)@.used == old(self)@.used.remove(i)
            } else {
                r == None::<i32> && final(self)@.used == old(self)@.used
            },
    {
        match position(&self.used_fds, sock_info) {
            Some(p) => {
                proof {
                    lemma_listeners_remove(self.used_fds@, p as int);
                    assert(listeners_view(self.used_fds@)[p as int] == self.used_fds@[p as int]@);
                }
                let li = self.used_fds.remove(p);
                Some(li.fd)
            },
            None => None,
        }
    }

    /// Forgets all used descriptors. The result has to be closed, in its order.
    pub fn close_used(&mut self) -> (r: Vec<i32>)
        ensures
            r@ == fds_of(old(self)@.used),
            final(self)@ == (RegistryView { inherited: old(self)@.inherited, used: Seq::empty() }),
    {
        let fds: Vec<i32> = list_fds(&self.used_fds);
        self.used_fds.clear();
        assert(self@.used =~= Seq::empty());
        fds
    }

    /// Forgets all inherited descriptors that nobody asked for. The result has to be closed, in
    /// its order.
    pub fn close_inherited(&mut self) -> (r: Vec<i32>)
        ensures
            r@ == fds_of(old(self)@.inherited),
            final(self)@ == (RegistryView { inherited: Seq::empty(), used: old(self)@.used }),
    {
        let fds: Vec<i32> = list_fds(&self.inherited_fds);
        self.inherited_fds.clear();
        assert(self@.inherited =~= Seq::empty());
        fds
    }

    /// What the child is to be told of.
    pub fn get_fds_for_child(&self) -> (r: Vec<ListenerInfo>)
        ensures
            listeners_view(r@) == self@.used,
    {
        copy_listeners(&self.used_fds)
    }

    /// Forgets all descriptors, the used ones first. The result has to be closed, in its order.
    pub fn close_all(&mut self) -> (r: Vec<i32>)
        ensures
            r@ == old(self)@.all_fds(),
            final(self)@ == RegistryView::empty(),
    {
        let mut fds: Vec<i32> = self.close_used();
        let mut rest: Vec<i32> = self.close_inherited();
        fds.append(&mut rest);
        fds
    }
}

/// A socket is known by its kind and by its path, address or name, all as they were given.
pub proof fn law_socket_is_what_it_was_given(info: SockInfo)
    ensures
        match info {
            SockInfo::Unix(Some(path)) => info@ == SockInfoView::Unix(Some(path.bytes@)),
            SockInfo::Unix(None) => info@ == SockInfoView::Unix(None),
            SockInfo::Tcp(addr) => info@ == SockInfoView::Tcp(addr),
            SockInfo::Udp(addr) => info@ == SockInfoView::Udp(addr),
            SockInfo::UnboundUnixDatagram(name) => info@ == SockInfoView::UnboundUnixDatagram(
                name@,
            ),
            SockInfo::UnixSeqpacket(Some(path)) => info@ == SockInfoView::UnixSeqpacket(
                Some(path.bytes@),
            ),
            SockInfo::UnixSeqpacket(None) => info@ == SockInfoView::UnixSeqpacket(None),
        },
{
}

/// Two sockets are the same only where they are of the same kind, and have the same address or the
/// same name; the paths of two unix sockets have to lead to the same place.
pub proof fn law_same_socket(a: SockInfoView, b: SockInfoView)
    ensures
        a.key() == b.key() <==> match (a, b) {
            (SockInfoView::Unix(Some(p)), SockInfoView::Unix(Some(q))) => path_key(p) == path_key(
                q,
            ),
            (SockInfoView::Unix(None), SockInfoView::Unix(None)) => true,
            (SockInfoView::Tcp(x), SockInfoView::Tcp(y)) => x == y,
            (SockInfoView::Udp(x), SockInfoView::Udp(y)) => x == y,
            (
                SockInfoView::UnboundUnixDatagram(n),
                SockInfoView::UnboundUnixDatagram(m),
            ) => n == m,
            (
                SockInfoView::UnixSeqpacket(Some(p)),
                SockInfoView::UnixSeqpacket(Some(q)),
            ) => path_key(p) == path_key(q),
            (SockInfoView::UnixSeqpacket(None), SockInfoView::UnixSeqpacket(None)) => true,
            _ => false,
        },
{
}

/// What `==` means: of sockets, that they are the same; of listeners, that the descriptors are too.
pub proof fn law_equality(a: SockInfo, b: SockInfo, x: ListenerInfo, y: ListenerInfo)
    ensures
        a.eq_spec(&b) <==> a@.key() == b@.key(),
        x.eq_spec(&y) <==> x.fd == y.fd && x.sock_info@.key() == y.sock_info@.key(),
{
}

/// A list is seen entry by entry, each with its own descriptor and socket.
pub proof fn law_list_is_its_entries(list: Seq<ListenerInfo>)
    ensures
        listeners_view(list).len() == list.len(),
        forall|i: int|
            0 <= i < list.len() ==> (#[trigger] listeners_view(list)[i]).fd == list[i].fd
                && listeners_view(list)[i].sock_info == list[i].sock_info@,
        fds_of(listeners_view(list)).len() == list.len(),
        forall|i: int|
            0 <= i < list.len() ==> #[trigger] fds_of(listeners_view(list))[i] == list[i].fd,
{
}

/// The descriptors of a list are those of its entries, in their order.
pub proof fn law_descriptors_of_a_list(s: Seq<ListenerView>)
    ensures
        fds_of(s).len() == s.len(),
        forall|i: int| 0 <= i < s.len() ==> #[trigger] fds_of(s)[i] == s[i].fd,
{
}

/// A request is answered with the first entry for the socket, which alone leaves the inherited
/// ones; the used ones stay as they are, but for the duplicate of a socket that is put to use.
pub proof fn law_first_entry_is_handed_out<E>(
    registry: RegistryView,
    info: SockInfoView,
    i: int,
    dup: Result<i32, E>,
)
    requires
        0 <= i < registry.inherited.len(),
        registry.inherited[i].sock_info.key() == info.key(),
        forall|j: int|
            0 <= j < i ==> (#[trigger] registry.inherited[j]).sock_info.key() != info.key(),
    ensures
        registry.taken(info) == Some(registry.inherited[i].fd),
        registry.after_take(info).inherited == registry.inherited.remove(i),
        registry.after_take(info).used == registry.used,
        registry.after_inherit(info, dup).inherited == registry.inherited.remove(i),
        match dup {
            Ok(copy) => registry.after_inherit(info, dup).used == registry.used.push(
                ListenerView { fd: copy, sock_info: info },
            ),
            Err(_) => registry.after_inherit(info, dup).used == registry.used,
        },
        has_match(registry.inherited, info),
        first_match(registry.inherited, info) == i,
{
    assert(is_first_match(registry.inherited, info, i));
    lemma_first_match(registry.inherited, info);
}

/// A request for a socket that no entry is for is answered with nothing, and changes nothing.
pub proof fn law_nothing_is_handed_out<E>(
    registry: RegistryView,
    info: SockInfoView,
    dup: Result<i32, E>,
)
    requires
        forall|j: int|
            0 <= j < registry.inherited.len() ==> (#[trigger] registry.inherited[j]).sock_info.key()
                != info.key(),
    ensures
        registry.taken(info) is None,
        registry.after_take(info) == registry,
        registry.after_inherit(info, dup) == registry,
        !has_match(registry.inherited, info),
{
}

/// Registering adds one entry after all others. A duplicate that could not be made is not
/// registered.
pub proof fn law_registering_adds_one<E>(
    registry: RegistryView,
    fd: i32,
    info: SockInfoView,
    error: E,
)
    ensures
        registry.with_used(fd, info).used == registry.used.push(
            ListenerView { fd, sock_info: info },
        ),
        registry.with_used(fd, info).inherited == registry.inherited,
        registry.with_copy(Ok::<i32, E>(fd), info) == registry.with_used(fd, info),
        registry.with_copy(Err::<i32, E>(error), info) == registry,
{
}

/// All descriptors of a registry: every used one, in their order, and then every inherited one.
pub proof fn law_all_descriptors(registry: RegistryView)
    ensures
        registry.all_fds().len() == registry.used.len() + registry.inherited.len(),
        forall|i: int|
            0 <= i < registry.used.len() ==> #[trigger] registry.all_fds()[i]
                == registry.used[i].fd,
        forall|i: int|
            0 <= i < registry.inherited.len() ==> #[trigger] registry.all_fds()[registry.used.len()
                + i] == registry.inherited[i].fd,
        RegistryView::empty().used.len() == 0,
        RegistryView::empty().inherited.len() == 0,
{
}

/// A path that there may be is its bytes, where there is one.
pub proof fn law_optional_path(path: SockPath)
    ensures
        opt_path_view(Some(path)) == Some(path.bytes@),
        opt_path_view(None) is None,
{
}

} // verus!
