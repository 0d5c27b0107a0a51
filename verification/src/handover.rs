//! What holds of sockets across upgrades.
use crate::ecdysis::listen_after;
use crate::ecdysis::listen_end;
use crate::ecdysis::EcdysisView;
use crate::ecdysis::ListenEnd;
use crate::ecdysis::ListenSeen;
use crate::executioner::ready_verdict;
use crate::executioner::upgrade_result;
use crate::executioner::FinishedView;
use crate::executioner::UpgradeErrorView;
use crate::registry::fds_of;
use crate::registry::first_match;
use crate::registry::has_match;
use crate::registry::is_first_match;
use crate::registry::lemma_first_match;
use crate::registry::ListenerView;
use crate::registry::RegistryView;
use crate::registry::SockInfoView;
use vstd::prelude::*;

verus! {

/// The registry that a child starts with: what its parent used is what it inherits.
pub open spec fn child_of(parent: RegistryView) -> RegistryView {
    RegistryView { inherited: parent.used, used: Seq::empty() }
}

/// A child that asks for a socket of its parent gets the descriptor that the parent registered for
/// it, by whatever spelling of its path it asks; of several for the same socket, the first.
pub proof fn law_child_finds_parents_socket(parent: RegistryView, wanted: SockInfoView, i: int)
    requires
        is_first_match(parent.used, wanted, i),
    ensures
        child_of(parent).taken(wanted) == Some(parent.used[i].fd),
        child_of(parent).after_take(wanted).inherited == parent.used.remove(i),
{
    lemma_first_match(parent.used, wanted);
}

/// A child that asks for something that its parent did not use gets nothing, and loses nothing.
pub proof fn law_child_finds_nothing_else(parent: RegistryView, wanted: SockInfoView)
    requires
        !has_match(parent.used, wanted),
    ensures
        child_of(parent).taken(wanted) is None,
        child_of(parent).after_take(wanted) == child_of(parent),
{
}

/// What a series of requests returns.
pub open spec fn taken_in_turn(registry: RegistryView, wanted: Seq<SockInfoView>) -> Seq<
    Option<i32>,
>
    decreases wanted.len(),
{
    if wanted.len() == 0 {
        Seq::empty()
    } else {
        seq![registry.taken(wanted[0])] + taken_in_turn(
            registry.after_take(wanted[0]),
            wanted.drop_first(),
        )
    }
}

/// A child that asks for all that its parent used, in the order in which the parent came to use
/// it, gets every single descriptor, also where some stand for the same socket.
pub proof fn law_child_finds_everything(parent: RegistryView)
    ensures
        taken_in_turn(
            child_of(parent),
            parent.used.map_values(|l: ListenerView| l.sock_info),
        ) == parent.used.map_values(|l: ListenerView| Some(l.fd)),
{
    lemma_taken_in_turn(child_of(parent));
}

proof fn lemma_taken_in_turn(registry: RegistryView)
    ensures
        taken_in_turn(
            registry,
            registry.inherited.map_values(|l: ListenerView| l.sock_info),
        ) == registry.inherited.map_values(|l: ListenerView| Some(l.fd)),
    decreases registry.inherited.len(),
{
    let s = registry.inherited;
    let infos = s.map_values(|l: ListenerView| l.sock_info);
    let fds = s.map_values(|l: ListenerView| Some(l.fd));
    if s.len() == 0 {
        assert(taken_in_turn(registry, infos) =~= fds);
    } else {
        assert(s[0].sock_info.key() == infos[0].key());
        assert(has_match(s, infos[0]));
        assert(is_first_match(s, infos[0], 0));
        lemma_first_match(s, infos[0]);
        let rest = registry.after_take(infos[0]);
        assert(rest.inherited =~= s.drop_first());
        lemma_taken_in_turn(rest);
        assert(infos.drop_first() =~= rest.inherited.map_values(|l: ListenerView| l.sock_info));
        assert(fds =~= seq![Some(s[0].fd)] + rest.inherited.map_values(
            |l: ListenerView| Some(l.fd),
        ));
    }
}

/// The entries of a list that stand for the same socket as `info`.
pub open spec fn entries_for(s: Seq<ListenerView>, info: SockInfoView) -> Seq<ListenerView> {
    s.filter(|l: ListenerView| l.sock_info.key() == info.key())
}

/// The other entries of a list.
pub open spec fn entries_besides(s: Seq<ListenerView>, info: SockInfoView) -> Seq<ListenerView> {
    s.filter(|l: ListenerView| l.sock_info.key() != info.key())
}

/// What requests for one and the same socket return, one after the other. `copies` are the
/// duplicates, one for each request.
pub open spec fn inherited_in_turn(
    registry: RegistryView,
    info: SockInfoView,
    copies: Seq<i32>,
) -> Seq<Option<i32>>
    decreases copies.len(),
{
    if copies.len() == 0 {
        Seq::empty()
    } else {
        seq![registry.taken(info)] + inherited_in_turn(
            registry.after_inherit(info, Ok::<i32, ()>(copies[0])),
            info,
            copies.drop_first(),
        )
    }
}

/// The registry after these requests.
pub open spec fn after_in_turn(
    registry: RegistryView,
    info: SockInfoView,
    copies: Seq<i32>,
) -> RegistryView
    decreases copies.len(),
{
    if copies.len() == 0 {
        registry
    } else {
        after_in_turn(
            registry.after_inherit(info, Ok::<i32, ()>(copies[0])),
            info,
            copies.drop_first(),
        )
    }
}

/// The first entry for a socket is the first of the entries for it, and its removal touches no
/// other.
proof fn lemma_entries_split(s: Seq<ListenerView>, info: SockInfoView)
    requires
        has_match(s, info),
    ensures
        ({
            let f = first_match(s, info);
            &&& entries_for(s, info) == seq![s[f]] + entries_for(s.remove(f), info)
            &&& entries_besides(s, info) == entries_besides(s.remove(f), info)
        }),
{
    lemma_first_match(s, info);
    let f = first_match(s, info);
    let same = |l: ListenerView| l.sock_info.key() == info.key();
    let other = |l: ListenerView| l.sock_info.key() != info.key();
    let front = s.take(f);
    let back = s.skip(f + 1);
    assert(s =~= front + (seq![s[f]] + back));
    assert(s.remove(f) =~= front + back);
    Seq::filter_distributes_over_add(front, seq![s[f]] + back, same);
    Seq::filter_distributes_over_add(seq![s[f]], back, same);
    Seq::filter_distributes_over_add(front, back, same);
    Seq::filter_distributes_over_add(front, seq![s[f]] + back, other);
    Seq::filter_distributes_over_add(seq![s[f]], back, other);
    Seq::filter_distributes_over_add(front, back, other);
    assert forall|j: int| 0 <= j < front.len() implies (#[trigger] front[j]).sock_info.key()
        != info.key() by {
        assert(front[j] == s[j]);
    }
    lemma_no_entries(front, info);
    let one = seq![s[f]];
    reveal(Seq::filter);
    assert(one.drop_last() =~= Seq::<ListenerView>::empty());
    assert(one.drop_last().filter(same) =~= Seq::<ListenerView>::empty());
    assert(one.drop_last().filter(other) =~= Seq::<ListenerView>::empty());
    assert(one.last() == s[f]);
    assert(one.filter(same) =~= one);
    assert(one.filter(other) =~= Seq::<ListenerView>::empty());
}

/// Where no entry is for a socket, all are the others.
proof fn lemma_no_entries(s: Seq<ListenerView>, info: SockInfoView)
    requires
        !has_match(s, info),
    ensures
        entries_for(s, info) == Seq::<ListenerView>::empty(),
        entries_besides(s, info) == s,
    decreases s.len(),
{
    reveal(Seq::filter);
    if s.len() > 0 {
        let shorter = s.drop_last();
        assert forall|j: int| 0 <= j < shorter.len() implies (#[trigger] shorter[j]).sock_info.key()
            != info.key() by {
            assert(shorter[j] == s[j]);
        }
        lemma_no_entries(shorter, info);
        assert(s.last() == s[s.len() - 1]);
        assert(shorter.push(s.last()) =~= s);
    }
}

/// A process that asks for one and the same socket again and again gets the descriptors that were
/// inherited for it, in their order, and then none. For each that it gets, a duplicate is
/// registered. The entries for other sockets stay, in their order.
pub proof fn law_same_socket_asked_for_again(
    registry: RegistryView,
    info: SockInfoView,
    copies: Seq<i32>,
)
    requires
        copies.len() == entries_for(registry.inherited, info).len() + 1,
    ensures
        inherited_in_turn(registry, info, copies) == entries_for(
            registry.inherited,
            info,
        ).map_values(|l: ListenerView| Some(l.fd)).push(None),
        after_in_turn(registry, info, copies).used == registry.used + copies.drop_last().map_values(
            |copy: i32| ListenerView { fd: copy, sock_info: info },
        ),
        after_in_turn(registry, info, copies).inherited == entries_besides(
            registry.inherited,
            info,
        ),
    decreases copies.len(),
{
    let s = registry.inherited;
    let entries = entries_for(s, info);
    let fds = entries.map_values(|l: ListenerView| Some(l.fd));
    let used = copies.drop_last().map_values(
        |copy: i32| ListenerView { fd: copy, sock_info: info },
    );
    let next = registry.after_inherit(info, Ok::<i32, ()>(copies[0]));
    let later = copies.drop_first();
    if has_match(s, info) {
        lemma_first_match(s, info);
        lemma_entries_split(s, info);
        law_same_socket_asked_for_again(next, info, later);
        assert(fds.push(None) =~= seq![registry.taken(info)] + entries_for(
            next.inherited,
            info,
        ).map_values(|l: ListenerView| Some(l.fd)).push(None));
        assert(later.drop_last() =~= copies.drop_last().drop_first());
        assert(registry.used + used =~= next.used + later.drop_last().map_values(
            |copy: i32| ListenerView { fd: copy, sock_info: info },
        ));
    } else {
        lemma_no_entries(s, info);
        assert(later.len() == 0);
        assert(inherited_in_turn(next, info, later) =~= Seq::<Option<i32>>::empty());
        assert(inherited_in_turn(registry, info, copies) =~= fds.push(None));
        assert(after_in_turn(next, info, later) == next);
        assert(registry.used + used =~= registry.used);
    }
}

/// Taking a socket does not disturb the others.
pub proof fn law_take_leaves_the_rest(
    registry: RegistryView,
    wanted: SockInfoView,
    other: SockInfoView,
)
    requires
        wanted.key() != other.key(),
    ensures
        registry.after_take(wanted).taken(other) == registry.taken(other),
        registry.after_take(wanted).used == registry.used,
{
    let s = registry.inherited;
    if has_match(s, wanted) {
        lemma_first_match(s, wanted);
        let w = first_match(s, wanted);
        let t = s.remove(w);
        if has_match(s, other) {
            lemma_first_match(s, other);
            let o = first_match(s, other);
            let moved = if o < w {
                o
            } else {
                o - 1
            };
            assert(t[moved] == s[o]);
            assert forall|j: int| 0 <= j < moved implies (#[trigger] t[j]).sock_info.key()
                != other.key() by {
                if j < w {
                    assert(t[j] == s[j]);
                } else {
                    assert(t[j] == s[j + 1]);
                }
            }
            assert(is_first_match(t, other, moved));
            lemma_first_match(t, other);
        } else {
            assert forall|j: int| 0 <= j < t.len() implies (#[trigger] t[j]).sock_info.key()
                != other.key() by {
                if j < w {
                    assert(t[j] == s[j]);
                } else {
                    assert(t[j] == s[j + 1]);
                }
            }
        }
    }
}

/// No descriptor is lost or handed out twice: what is inherited is what a request returns, and what
/// is left, which is closed when the process declares itself ready. That holds whether the socket
/// is only taken or is put to use, and whatever became of its duplicate, which is the one thing
/// that can come to be registered.
pub proof fn law_no_descriptor_is_lost<E>(
    registry: RegistryView,
    wanted: SockInfoView,
    dup: Result<i32, E>,
)
    ensures
        registry.after_inherit(wanted, dup).inherited == registry.after_take(wanted).inherited,
        registry.after_inherit(wanted, dup).used == match (registry.taken(wanted), dup) {
            (Some(_), Ok(copy)) => registry.used.push(
                ListenerView { fd: copy, sock_info: wanted },
            ),
            _ => registry.used,
        },
        fds_of(registry.inherited).to_multiset() == match registry.taken(wanted) {
            Some(fd) => fds_of(registry.after_take(wanted).inherited).to_multiset().insert(fd),
            None => fds_of(registry.after_take(wanted).inherited).to_multiset(),
        },
{
    let s = registry.inherited;
    if has_match(s, wanted) {
        lemma_first_match(s, wanted);
        let i = first_match(s, wanted);
        let f = fds_of(s);
        assert(fds_of(s.remove(i)) =~= f.remove(i));
        f.to_multiset_ensures();
        assert(f.remove(i).to_multiset() =~= f.to_multiset().remove(f[i]));
        assert(f.to_multiset().count(f[i]) > 0) by {
            assert(f.contains(f[i]));
        }
        assert(f.to_multiset() =~= f.to_multiset().remove(f[i]).insert(f[i]));
    }
}

/// Opening a socket registers at most one descriptor for the child, the duplicate: none, where it
/// fails, and none, where an inherited one could not be duplicated.
pub proof fn law_listen_registers_one<E>(
    registry: RegistryView,
    info: SockInfoView,
    seen: ListenSeen<E>,
)
    ensures
        listen_after(registry, info, seen).used == match (
            listen_end(registry, info, seen),
            seen.adopt_dup,
        ) {
            (ListenEnd::Inherited(_), Ok(copy)) => registry.used.push(
                ListenerView { fd: copy, sock_info: info },
            ),
            (ListenEnd::Created(_), _) => registry.used.push(
                ListenerView {
                    fd: seen.add_dup->Ok_0,
                    sock_info: seen.created->Ok_0@.sock_info,
                },
            ),
            _ => registry.used,
        },
{
}

/// A socket that was inherited is not built: what a builder would have made has no part in the
/// outcome.
pub proof fn law_builder_is_ignored_in_upgrades<E>(
    registry: RegistryView,
    info: SockInfoView,
    seen: ListenSeen<E>,
    other: ListenSeen<E>,
)
    requires
        has_match(registry.inherited, info),
        seen.adopt_dup == other.adopt_dup,
    ensures
        listen_end(registry, info, seen) is Inherited,
        listen_end(registry, info, seen) == listen_end(registry, info, other),
        listen_after(registry, info, seen) == listen_after(registry, info, other),
{
}

/// A descriptor for the child was registered when a socket was opened.
pub open spec fn listen_registers<E>(
    registry: RegistryView,
    info: SockInfoView,
    seen: ListenSeen<E>,
) -> bool {
    match listen_end(registry, info, seen) {
        ListenEnd::Inherited(_) => seen.adopt_dup is Ok,
        ListenEnd::Created(_) => true,
        ListenEnd::Failed(_) => false,
    }
}

/// A socket survives the upgrade: once the parent has opened and registered it, the child that
/// opens it gets the duplicate that the parent registered, and registers it in turn, under the name
/// that it used, for its own child. `wanted` is any name for the socket as it was registered.
pub proof fn law_socket_survives_upgrade<E>(
    parent: RegistryView,
    info: SockInfoView,
    seen: ListenSeen<E>,
    wanted: SockInfoView,
    in_child: ListenSeen<E>,
)
    requires
        listen_registers(parent, info, seen),
        wanted.key() == listen_after(parent, info, seen).used.last().sock_info.key(),
        !has_match(parent.used, wanted),
        in_child.adopt_dup is Ok,
    ensures
        ({
            let after = listen_after(parent, info, seen);
            let child = child_of(after);
            &&& listen_end(child, wanted, in_child) == ListenEnd::<E>::Inherited(
                after.used.last().fd,
            )
            &&& listen_after(child, wanted, in_child).used == seq![
                ListenerView { fd: in_child.adopt_dup->Ok_0, sock_info: wanted },
            ]
            &&& child_of(listen_after(child, wanted, in_child)).taken(wanted) == Some(
                in_child.adopt_dup->Ok_0,
            )
        }),
{
    let after = listen_after(parent, info, seen);
    let child = child_of(after);
    let last = after.used.len() - 1;
    assert(after.used.drop_last() =~= parent.used);
    assert forall|j: int| 0 <= j < last implies (#[trigger] after.used[j]).sock_info.key()
        != wanted.key() by {
        assert(parent.used[j] == after.used[j]);
    }
    assert(is_first_match(after.used, wanted, last));
    lemma_first_match(after.used, wanted);
    let grand = listen_after(child, wanted, in_child);
    assert(grand.used =~= seq![
        ListenerView { fd: in_child.adopt_dup->Ok_0, sock_info: wanted },
    ]);
    assert(is_first_match(grand.used, wanted, 0));
    lemma_first_match(grand.used, wanted);
}

/// A socket that a process registered is found by its child, by whatever spelling of its path.
pub proof fn law_registered_socket_is_found(
    parent: RegistryView,
    registered: SockInfoView,
    wanted: SockInfoView,
    copy: i32,
)
    requires
        registered.key() == wanted.key(),
        !has_match(parent.used, wanted),
    ensures
        child_of(parent.with_used(copy, registered)).taken(wanted) == Some(copy),
{
    let after = parent.with_used(copy, registered);
    let last = after.used.len() - 1;
    assert forall|j: int| 0 <= j < last implies (#[trigger] after.used[j]).sock_info.key()
        != wanted.key() by {
        assert(parent.used[j] == after.used[j]);
    }
    assert(is_first_match(after.used, wanted, last));
    lemma_first_match(after.used, wanted);
}

/// Datagram pairs form a chain: the end that a process registered under a name is the one that its
/// child gets under that name.
pub proof fn law_datagram_chain(parent: RegistryView, name: Seq<char>, copy: i32)
    requires
        !has_match(parent.used, SockInfoView::UnboundUnixDatagram(name)),
    ensures
        child_of(
            parent.with_used(copy, SockInfoView::UnboundUnixDatagram(name)),
        ).taken(SockInfoView::UnboundUnixDatagram(name)) == Some(copy),
{
    let info = SockInfoView::UnboundUnixDatagram(name);
    law_registered_socket_is_found(parent, info, info, copy);
}

/// A child that declares itself ready is heard: what it writes is what its parent waits for, and
/// the upgrade comes to what the watch over the child found.
pub proof fn law_ready_is_heard(child: EcdysisView, watch: FinishedView)
    requires
        child.notifier,
    ensures
        child.ready_message() is Some,
        ({
            let outcome = upgrade_result(
                Some(ready_verdict(Some(child.ready_message()->0@))),
                watch,
            );
            match watch {
                Ok(_) => outcome is Ok,
                Err(error) => outcome == Err::<(), UpgradeErrorView>(error),
            }
        }),
{
}

/// A process that is ready says so once, and has nothing left that it inherited and did not ask
/// for; what it uses it keeps.
pub proof fn law_ready_is_final(manager: EcdysisView)
    ensures
        manager.after_ready().ready_message() is None,
        manager.after_ready().registry.inherited.len() == 0,
        manager.after_ready().registry.used == manager.registry.used,
        manager.after_ready().after_ready() == manager.after_ready(),
{
}

/// A child starts with what its parent used, and uses nothing itself.
pub proof fn law_child_starts_with_what_its_parent_used(parent: RegistryView)
    ensures
        child_of(parent).inherited == parent.used,
        child_of(parent).used.len() == 0,
{
}

} // verus!
