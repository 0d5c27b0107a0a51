//! Unix socket paths, and when two of them name the same path.
use vstd::prelude::*;

verus! {

/// The byte `/`, which separates the names of a path.
pub const SEPARATOR: u8 = 47;

/// The byte `.`; a name made of it alone stands for the current directory.
pub const DOT: u8 = 46;

/// A unix path, byte for byte as it was given.
#[derive(Debug)]
pub struct SockPath {
    pub bytes: Vec<u8>,
}

impl View for SockPath {
    type V = Seq<u8>;

    open spec fn view(&self) -> Seq<u8> {
        self.bytes@
    }
}

/// What two paths are compared by: whether the path starts at the root, whether it starts
/// with the current directory, and the names in it that say where it leads.
#[verifier::ext_equal]
pub struct PathKey {
    pub rooted: bool,
    pub here: bool,
    pub names: Seq<Seq<u8>>,
}

/// The stretches of `s` between separators, empty ones included.
pub open spec fn pieces(s: Seq<u8>) -> Seq<Seq<u8>>
    decreases s.len(),
{
    if s.len() == 0 {
        seq![Seq::<u8>::empty()]
    } else {
        let before = pieces(s.drop_last());
        if s.last() == SEPARATOR {
            before.push(Seq::<u8>::empty())
        } else {
            before.drop_last().push(before.last().push(s.last()))
        }
    }
}

/// A piece that counts: empty pieces (repeated or trailing separators) and single dots do not.
pub open spec fn significant(piece: Seq<u8>) -> bool {
    piece.len() != 0 && piece != seq![DOT]
}

/// The key of a path. A dot counts only where it is the first name of a path that is not
/// rooted.
pub open spec fn path_key(s: Seq<u8>) -> PathKey {
    PathKey {
        rooted: s.len() > 0 && s[0] == SEPARATOR,
        here: s.len() > 0 && s[0] == DOT && (s.len() == 1 || s[1] == SEPARATOR),
        names: pieces(s).filter(|p: Seq<u8>| significant(p)),
    }
}

/// The names of a list of byte strings, as sequences.
pub open spec fn names_view(names: Seq<Vec<u8>>) -> Seq<Seq<u8>> {
    names.map_values(|n: Vec<u8>| n@)
}

/// Filtering a longer sequence: the last element stays exactly where it passes.
proof fn lemma_filter_push(s: Seq<Seq<u8>>, x: Seq<u8>)
    ensures
        s.push(x).filter(|p: Seq<u8>| significant(p)) == if significant(x) {
            s.filter(|p: Seq<u8>| significant(p)).push(x)
        } else {
            s.filter(|p: Seq<u8>| significant(p))
        },
{
    reveal(Seq::filter);
    assert(s.push(x).drop_last() =~= s);
}

/// A separator at the end does not change where a path leads.
pub proof fn law_trailing_separator(s: Seq<u8>)
    requires
        s.len() > 0,
    ensures
        path_key(s.push(SEPARATOR)) == path_key(s),
{
    assert(s.push(SEPARATOR).drop_last() =~= s);
    assert(pieces(s.push(SEPARATOR)) == pieces(s).push(Seq::<u8>::empty()));
    lemma_filter_push(pieces(s), Seq::<u8>::empty());
    assert(s.push(SEPARATOR)[0] == s[0]);
    if s.len() > 1 {
        assert(s.push(SEPARATOR)[1] == s[1]);
    }
}

/// Neither does a dot as the last of several names.
pub proof fn law_trailing_dot(s: Seq<u8>)
    requires
        s.len() > 0,
    ensures
        path_key(s.push(SEPARATOR).push(DOT)) == path_key(s),
{
    let t = s.push(SEPARATOR);
    law_trailing_separator(s);
    assert(t.drop_last() =~= s);
    assert(t.push(DOT).drop_last() =~= t);
    assert(pieces(t) == pieces(s).push(Seq::<u8>::empty()));
    assert(pieces(t).drop_last() =~= pieces(s));
    assert(Seq::<u8>::empty().push(DOT) =~= seq![DOT]);
    assert(pieces(t.push(DOT)) == pieces(s).push(seq![DOT]));
    lemma_filter_push(pieces(s), seq![DOT]);
    assert(t.push(DOT)[0] == s[0]);
    if s.len() > 1 {
        assert(t.push(DOT)[1] == s[1]);
    }
}

/// Bytes without a separator go to the last piece.
proof fn lemma_pieces_extend(s: Seq<u8>, t: Seq<u8>)
    requires
        forall|i: int| 0 <= i < t.len() ==> #[trigger] t[i] != SEPARATOR,
    ensures
        pieces(s).len() > 0,
        pieces(s + t) == pieces(s).drop_last().push(pieces(s).last() + t),
    decreases s.len() + t.len(),
{
    if t.len() == 0 {
        if s.len() > 0 {
            lemma_pieces_extend(s.drop_last(), t);
        }
        assert(s + t =~= s);
        assert(pieces(s).last() + t =~= pieces(s).last());
        assert(pieces(s).drop_last().push(pieces(s).last()) =~= pieces(s));
    } else {
        let shorter = t.drop_last();
        assert forall|i: int| 0 <= i < shorter.len() implies #[trigger] shorter[i]
            != SEPARATOR by {
            assert(shorter[i] == t[i]);
        }
        lemma_pieces_extend(s, shorter);
        assert((s + t).drop_last() =~= s + shorter);
        assert((s + t).last() == t[t.len() - 1]);
        let before = pieces(s + shorter);
        assert(before.drop_last() =~= pieces(s).drop_last());
        assert(before.last().push(t.last()) =~= pieces(s).last() + t);
    }
}

/// The shortest paths: the empty one, the root, and the current directory.
pub proof fn law_shortest_paths()
    ensures
        path_key(Seq::empty()) == (PathKey { rooted: false, here: false, names: Seq::empty() }),
        path_key(seq![SEPARATOR]) == (PathKey { rooted: true, here: false, names: Seq::empty() }),
        path_key(seq![DOT]) == (PathKey { rooted: false, here: true, names: Seq::empty() }),
{
    reveal(Seq::filter);
    let empty = Seq::<u8>::empty();
    let none = Seq::<Seq<u8>>::empty();
    assert(pieces(empty) =~= none.push(empty));
    lemma_filter_push(none, empty);
    assert(seq![SEPARATOR].drop_last() =~= empty);
    assert(pieces(seq![SEPARATOR]) =~= none.push(empty).push(empty));
    lemma_filter_push(none.push(empty), empty);
    assert(seq![DOT].drop_last() =~= empty);
    assert(empty.push(DOT) =~= seq![DOT]);
    assert(pieces(seq![DOT]) =~= none.push(seq![DOT]));
    lemma_filter_push(none, seq![DOT]);
    assert(path_key(empty).names =~= none);
    assert(path_key(seq![SEPARATOR]).names =~= none);
    assert(path_key(seq![DOT]).names =~= none);
}

/// A name alone is a path that leads to it, byte for byte.
pub proof fn law_first_name(name: Seq<u8>)
    requires
        name.len() > 0,
        forall|i: int| 0 <= i < name.len() ==> #[trigger] name[i] != SEPARATOR,
        name != seq![DOT],
    ensures
        path_key(name) == (PathKey { rooted: false, here: false, names: seq![name] }),
{
    reveal(Seq::filter);
    let empty = Seq::<u8>::empty();
    let none = Seq::<Seq<u8>>::empty();
    lemma_pieces_extend(empty, name);
    assert(empty + name =~= name);
    assert(pieces(empty).last() + name =~= name);
    assert(pieces(name) =~= none.push(name));
    lemma_filter_push(none, name);
    assert(path_key(name).names =~= seq![name]);
    if name.len() == 1 && name[0] == DOT {
        assert(name =~= seq![DOT]);
    }
    if name.len() > 1 {
        assert(name[1] != SEPARATOR);
    }
}

/// A name at the end of a path counts, byte for byte, and changes nothing before it. A path that
/// is otherwise empty becomes a rooted one.
pub proof fn law_next_name(s: Seq<u8>, name: Seq<u8>)
    requires
        name.len() > 0,
        forall|i: int| 0 <= i < name.len() ==> #[trigger] name[i] != SEPARATOR,
        name != seq![DOT],
    ensures
        path_key(s.push(SEPARATOR) + name) == (PathKey {
            rooted: s.len() == 0 || path_key(s).rooted,
            here: path_key(s).here,
            names: path_key(s).names.push(name),
        }),
{
    let t = s.push(SEPARATOR);
    lemma_pieces_extend(t, name);
    assert(t.drop_last() =~= s);
    assert(pieces(t).drop_last() =~= pieces(s));
    assert(pieces(t).last() + name =~= name);
    lemma_filter_push(pieces(s), name);
    let u = t + name;
    assert(u[0] == t[0]);
    assert(u[1] == if s.len() > 1 {
        s[1]
    } else if s.len() == 1 {
        SEPARATOR
    } else {
        name[0]
    });
}

/// A separator or a dot after a separator adds nothing, wherever the path leads.
pub proof fn law_nothing_added(s: Seq<u8>)
    ensures
        path_key(s.push(SEPARATOR).push(SEPARATOR)) == path_key(s.push(SEPARATOR)),
        path_key(s.push(SEPARATOR).push(DOT)) == path_key(s.push(SEPARATOR)),
{
    let t = s.push(SEPARATOR);
    law_trailing_separator(t);
    if s.len() > 0 {
        law_trailing_separator(s);
        law_trailing_dot(s);
    } else {
        law_shortest_paths();
        assert(t =~= seq![SEPARATOR]);
        assert(t.push(DOT).drop_last() =~= t);
        let before = pieces(t);
        lemma_pieces_extend(Seq::empty(), Seq::empty());
        assert(t.drop_last() =~= Seq::<u8>::empty());
        assert(before.last() =~= Seq::<u8>::empty());
        assert(before.last().push(DOT) =~= seq![DOT]);
        assert(pieces(t.push(DOT)) =~= before.drop_last().push(seq![DOT]));
        lemma_filter_push(before.drop_last(), seq![DOT]);
        assert(before.drop_last().push(Seq::<u8>::empty()) =~= before);
        lemma_filter_push(before.drop_last(), Seq::<u8>::empty());
    }
}

/// The path that leads from `s` on to `names`.
pub open spec fn appended(s: Seq<u8>, names: Seq<Seq<u8>>) -> Seq<u8>
    decreases names.len(),
{
    if names.len() == 0 {
        s
    } else {
        appended(s, names.drop_last()).push(SEPARATOR) + names.last()
    }
}

/// Something can have this name: it is not empty, holds no separator, and is not a single dot.
pub open spec fn is_name(name: Seq<u8>) -> bool {
    &&& name.len() > 0
    &&& forall|i: int| 0 <= i < name.len() ==> #[trigger] name[i] != SEPARATOR
    &&& name != seq![DOT]
}

pub open spec fn all_names(names: Seq<Seq<u8>>) -> bool {
    forall|i: int| 0 <= i < names.len() ==> is_name(#[trigger] names[i])
}

/// All the names of a path are in its key, byte for byte and in their order.
pub proof fn law_names_are_kept(s: Seq<u8>, names: Seq<Seq<u8>>)
    requires
        all_names(names),
    ensures
        path_key(appended(s, names)) == (PathKey {
            rooted: path_key(s).rooted || (s.len() == 0 && names.len() > 0),
            here: path_key(s).here,
            names: path_key(s).names + names,
        }),
        names.len() > 0 ==> appended(s, names).len() > 0,
    decreases names.len(),
{
    if names.len() == 0 {
        assert(path_key(s).names + names =~= path_key(s).names);
    } else {
        let shorter = names.drop_last();
        assert forall|i: int| 0 <= i < shorter.len() implies is_name(#[trigger] shorter[i]) by {
            assert(shorter[i] == names[i]);
        }
        law_names_are_kept(s, shorter);
        let last = names[names.len() - 1];
        assert(is_name(last));
        law_next_name(appended(s, shorter), last);
        assert(path_key(s).names + names =~= (path_key(s).names + shorter).push(last));
    }
}

/// Two rooted paths are the same only where they have the same names, byte for byte; so are two
/// that begin with the current directory, and two that begin with a name.
pub proof fn law_same_names_only(a: Seq<Seq<u8>>, b: Seq<Seq<u8>>)
    requires
        all_names(a),
        all_names(b),
        a.len() > 0,
        b.len() > 0,
    ensures
        path_key(appended(Seq::empty(), a)) == path_key(appended(Seq::empty(), b)) <==> a == b,
        path_key(appended(seq![DOT], a)) == path_key(appended(seq![DOT], b)) <==> a == b,
        path_key(appended(a[0], a.drop_first())) == path_key(appended(b[0], b.drop_first())) <==> a
            == b,
        path_key(appended(Seq::empty(), a)) != path_key(appended(a[0], a.drop_first())),
        path_key(appended(seq![DOT], a)) != path_key(appended(a[0], a.drop_first())),
{
    law_shortest_paths();
    lemma_relative_names(a);
    lemma_relative_names(b);
    law_names_are_kept(Seq::empty(), a);
    law_names_are_kept(Seq::empty(), b);
    law_names_are_kept(seq![DOT], a);
    law_names_are_kept(seq![DOT], b);
    assert(Seq::<Seq<u8>>::empty() + a =~= a);
    assert(Seq::<Seq<u8>>::empty() + b =~= b);
}

proof fn lemma_relative_names(a: Seq<Seq<u8>>)
    requires
        all_names(a),
        a.len() > 0,
    ensures
        path_key(appended(a[0], a.drop_first())) == (PathKey {
            rooted: false,
            here: false,
            names: a,
        }),
{
    let rest = a.drop_first();
    assert forall|i: int| 0 <= i < rest.len() implies is_name(#[trigger] rest[i]) by {
        assert(rest[i] == a[i + 1]);
    }
    assert(is_name(a[0]));
    law_first_name(a[0]);
    law_names_are_kept(a[0], rest);
    assert(seq![a[0]] + rest =~= a);
}

fn is_significant(piece: &Vec<u8>) -> (r: bool)
    ensures
        r == significant(piece@),
{
    if piece.len() == 1 && piece[0] == DOT {
        assert(piece@ =~= seq![DOT]);
        false
    } else {
        assert(piece@ == seq![DOT] ==> piece@.len() == 1 && piece@[0] == DOT);
        piece.len() != 0
    }
}

fn same_bytes(a: &Vec<u8>, b: &Vec<u8>) -> (r: bool)
    ensures
        r == (a@ == b@),
{
    if a.len() != b.len() {
        return false;
    }
    let mut i: usize = 0;
    while i < a.len()
        invariant
            i <= a.len(),
            a.len() == b.len(),
            forall|j: int| 0 <= j < i ==> a@[j] == b@[j],
        decreases a.len() - i,
    {
        if a[i] != b[i] {
            assert(a@[i as int] != b@[i as int]);
            return false;
        }
        i = i + 1;
    }
    assert(a@ =~= b@);
    true
}

fn same_names(a: &Vec<Vec<u8>>, b: &Vec<Vec<u8>>) -> (r: bool)
    ensures
        r == (names_view(a@) == names_view(b@)),
{
    if a.len() != b.len() {
        assert(names_view(a@).len() != names_view(b@).len());
        return false;
    }
    let mut i: usize = 0;
    while i < a.len()
        invariant
            i <= a.len(),
            a.len() == b.len(),
            forall|j: int| 0 <= j < i ==> #[trigger] a@[j]@ == b@[j]@,
        decreases a.len() - i,
    {
        if !same_bytes(&a[i], &b[i]) {
            assert(names_view(a@)[i as int] != names_view(b@)[i as int]);
            return false;
        }
        i = i + 1;
    }
    assert(names_view(a@) =~= names_view(b@));
    true
}

impl SockPath {
    /// A path of these bytes.
    pub fn new(bytes: Vec<u8>) -> (r: Self)
        ensures
            r@ == bytes@,
    {
        SockPath { bytes }
    }

    /// The names of the path that count.
    fn names(&self) -> (r: Vec<Vec<u8>>)
        ensures
            names_view(r@) == path_key(self@).names,
    {
        let mut names: Vec<Vec<u8>> = Vec::new();
        let mut current: Vec<u8> = Vec::new();
        let mut i: usize = 0;
        proof {
            assert(self@.take(0) =~= Seq::<u8>::empty());
            assert(pieces(self@.take(0)).drop_last() =~= Seq::<Seq<u8>>::empty());
            reveal(Seq::filter);
            assert(names_view(names@) =~= Seq::<Seq<u8>>::empty());
        }
        while i < self.bytes.len()
            invariant
                i <= self.bytes.len(),
                pieces(self@.take(i as int)).len() > 0,
                pieces(self@.take(i as int)).last() == current@,
                names_view(names@) == pieces(self@.take(i as int)).drop_last().filter(
                    |p: Seq<u8>| significant(p),
                ),
            decreases self.bytes.len() - i,
        {
            let b: u8 = self.bytes[i];
            let ghost before = pieces(self@.take(i as int));
            proof {
                assert(self@.take(i + 1).drop_last() =~= self@.take(i as int));
                assert(before.drop_last().push(current@) =~= before);
                lemma_filter_push(before.drop_last(), current@);
            }
            if b == SEPARATOR {
                proof {
                    assert(pieces(self@.take(i + 1)).drop_last() =~= before);
                }
                if is_significant(&current) {
                    let ghost shorter = names@;
                    let ghost piece = current@;
                    names.push(current);
                    assert(names_view(names@) =~= names_view(shorter).push(piece));
                }
                current = Vec::new();
                assert(current@ =~= Seq::<u8>::empty());
            } else {
                current.push(b);
                proof {
                    assert(pieces(self@.take(i + 1)).drop_last() =~= before.drop_last());
                }
            }
            i = i + 1;
        }
        proof {
            assert(self@.take(i as int) =~= self@);
            assert(pieces(self@).drop_last().push(current@) =~= pieces(self@));
            lemma_filter_push(pieces(self@).drop_last(), current@);
        }
        if is_significant(&current) {
            let ghost shorter = names@;
            let ghost piece = current@;
            names.push(current);
            assert(names_view(names@) =~= names_view(shorter).push(piece));
        }
        names
    }

    /// Whether both name the same path: `a//b/.` and `a/b` do, `./a` and `a` do not.
    pub fn same_path(&self, other: &SockPath) -> (r: bool)
        ensures
            r == (path_key(self@) == path_key(other@)),
    {
        let rooted: bool = self.bytes.len() > 0 && self.bytes[0] == SEPARATOR;
        let other_rooted: bool = other.bytes.len() > 0 && other.bytes[0] == SEPARATOR;
        let here: bool = self.bytes.len() > 0 && self.bytes[0] == DOT && (self.bytes.len() == 1
            || self.bytes[1] == SEPARATOR);
        let other_here: bool = other.bytes.len() > 0 && other.bytes[0] == DOT && (
        other.bytes.len() == 1 || other.bytes[1] == SEPARATOR);
        let names: Vec<Vec<u8>> = self.names();
        let other_names: Vec<Vec<u8>> = other.names();
        rooted == other_rooted && here == other_here && same_names(&names, &other_names)
    }
}

impl Clone for SockPath {
    fn clone(&self) -> (r: Self)
        ensures
            r@ == self@,
    {
        let bytes: Vec<u8> = self.bytes.clone();
        assert(bytes@ =~= self.bytes@);
        SockPath { bytes }
    }
}

/// A path is the bytes that it was given as.
pub proof fn law_path_is_its_bytes(path: SockPath)
    ensures
        path@ == path.bytes@,
{
}

} // verus!
