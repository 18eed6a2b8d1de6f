//! Paths as text: joining, components, and what a path lies under.

use crate::text;
use crate::text::split;
use vstd::prelude::*;
use vstd::string::*;

verus! {

/// A piece of a path that names something: not empty and not `.`.
pub open spec fn names_something() -> spec_fn(Seq<char>) -> bool {
    |piece: Seq<char>| piece.len() > 0 && piece != "."@
}

/// Whether a path begins at the root.
pub open spec fn is_absolute(path: Seq<char>) -> bool {
    path.len() > 0 && path[0] == '/'
}

/// The component that a path begins with beside those that its pieces name: the root of an
/// absolute path, written `/`, or a `.` that a relative path begins with.
pub open spec fn anchor(path: Seq<char>) -> Seq<Seq<char>> {
    if is_absolute(path) {
        seq!["/"@]
    } else if split(path, '/')[0] == "."@ {
        seq!["."@]
    } else {
        Seq::empty()
    }
}

/// The components of a path. Repeated and trailing slashes do not count, nor does a `.` anywhere
/// but at the beginning.
pub open spec fn components(path: Seq<char>) -> Seq<Seq<char>> {
    anchor(path) + split(path, '/').filter(names_something())
}

/// Whether `path` is `base` or lies under it, by whole components.
pub open spec fn lies_under(path: Seq<char>, base: Seq<char>) -> bool {
    components(base).is_prefix_of(components(path))
}

/// A component that is the name of a file or directory.
pub open spec fn is_file_name(component: Seq<char>) -> bool {
    component != "/"@ && component != "."@ && component != ".."@
}

/// The name of the directory that holds `path`.
pub open spec fn parent_name(path: Seq<char>) -> Option<Seq<char>> {
    let all = components(path);
    if all.len() >= 2 && is_file_name(all[all.len() - 2]) {
        Some(all[all.len() - 2])
    } else {
        None
    }
}

/// `path` seen from `base`: an absolute path stands for itself.
pub open spec fn joined_path(base: Seq<char>, path: Seq<char>) -> Seq<char> {
    if is_absolute(path) || base.len() == 0 {
        path
    } else if base.last() == '/' {
        base + path
    } else {
        base.push('/') + path
    }
}

/// `path` seen from `base`.
pub fn join(base: &str, path: &str) -> (r: String)
    ensures
        r@ == joined_path(base@, path@),
{
    proof {
        reveal_strlit("/");
    }
    if path.unicode_len() > 0 && path.get_char(0) == '/' {
        return path.to_owned();
    }
    let n: usize = base.unicode_len();
    if n == 0 {
        path.to_owned()
    } else if base.get_char(n - 1) == '/' {
        base.to_owned().concat(path)
    } else {
        let r = base.to_owned().concat("/").concat(path);
        assert(r@ =~= base@.push('/') + path@);
        r
    }
}

/// The components of a path.
pub fn components_of(path: &str) -> (r: Vec<String>)
    ensures
        r.deep_view() == components(path@),
{
    let pieces = text::split_on(path, '/');
    proof {
        text::lemma_split_nonempty(path@, '/');
        reveal_strlit("/");
    }
    let mut r: Vec<String> = Vec::new();
    assert(r.deep_view() =~= Seq::<Seq<char>>::empty());
    if path.unicode_len() > 0 && path.get_char(0) == '/' {
        r.push("/".to_owned());
        assert(r.deep_view() =~= anchor(path@));
    } else if text::equal(pieces[0].as_str(), ".") {
        assert(pieces.deep_view()[0] == pieces@[0]@);
        r.push(".".to_owned());
        assert(r.deep_view() =~= anchor(path@));
    } else {
        assert(pieces.deep_view()[0] == pieces@[0]@);
        assert(r.deep_view() =~= anchor(path@));
    }
    let ghost all = pieces.deep_view();
    let ghost keep = names_something();
    let mut i: usize = 0;
    assert(all.take(0).filter(keep) =~= Seq::<Seq<char>>::empty()) by {
        reveal(Seq::filter);
    }
    assert(r.deep_view() =~= anchor(path@) + all.take(0).filter(keep));
    while i < pieces.len()
        invariant
            i <= pieces@.len(),
            all == pieces.deep_view(),
            keep == names_something(),
            r.deep_view() == anchor(path@) + all.take(i as int).filter(keep),
        decreases pieces@.len() - i,
    {
        let ghost before = r.deep_view();
        let ghost longer = all.take(i as int + 1);
        assert(longer.drop_last() =~= all.take(i as int));
        assert(longer.last() == pieces@[i as int]@);
        let piece = pieces[i].as_str();
        if piece.unicode_len() > 0 && !text::equal(piece, ".") {
            r.push(piece.to_owned());
            assert(r.deep_view() =~= before.push(longer.last()));
        }
        assert(r.deep_view() =~= anchor(path@) + longer.filter(keep)) by {
            reveal(Seq::filter);
        }
        i += 1;
    }
    assert(all.take(all.len() as int) =~= all);
    r
}

/// Whether `path` is `base` or lies under it.
pub fn under(path: &str, base: &str) -> (r: bool)
    ensures
        r == lies_under(path@, base@),
{
    let p = components_of(path);
    let b = components_of(base);
    if b.len() > p.len() {
        return false;
    }
    let mut i: usize = 0;
    while i < b.len()
        invariant
            i <= b@.len() <= p@.len(),
            p.deep_view() == components(path@),
            b.deep_view() == components(base@),
            forall|j: int| 0 <= j < i ==> b.deep_view()[j] == p.deep_view()[j],
        decreases b@.len() - i,
    {
        assert(b.deep_view()[i as int] == b@[i as int]@);
        assert(p.deep_view()[i as int] == p@[i as int]@);
        if !text::equal(b[i].as_str(), p[i].as_str()) {
            assert(p.deep_view().subrange(0, b@.len() as int)[i as int] == p@[i as int]@);
            return false;
        }
        i += 1;
    }
    assert(b.deep_view() =~= p.deep_view().subrange(0, b@.len() as int));
    true
}

/// The name of the directory that holds `path`.
pub fn parent_name_of(path: &str) -> (r: Option<String>)
    ensures
        match r {
            Some(name) => parent_name(path@) == Some(name@),
            None => parent_name(path@) is None,
        },
{
    let all = components_of(path);
    let n: usize = all.len();
    if n < 2 {
        return None;
    }
    let name = all[n - 2].as_str();
    assert(all.deep_view()[n - 2] == all@[n - 2]@);
    if text::equal(name, "/") || text::equal(name, ".") || text::equal(name, "..") {
        None
    } else {
        Some(name.to_owned())
    }
}

/// A relative path adds the components that its pieces name; where there is nothing to add them to,
/// it must not begin with `.`.
pub proof fn lemma_components_of_joined(base: Seq<char>, path: Seq<char>)
    requires
        !is_absolute(path),
        base.len() > 0 || split(path, '/')[0] != "."@,
    ensures
        components(joined_path(base, path)) == components(base) + split(path, '/').filter(
            names_something(),
        ),
{
    let keep = names_something();
    let whole = joined_path(base, path);
    text::lemma_split_nonempty(path, '/');
    text::lemma_split_nonempty(base, '/');
    reveal_strlit(".");
    reveal(Seq::filter);
    if base.len() == 0 {
        assert(components(base) =~= Seq::<Seq<char>>::empty()) by {
            assert(split(base, '/') =~= seq![Seq::<char>::empty()]);
            assert(split(base, '/').drop_last() =~= Seq::<Seq<char>>::empty());
            assert(split(base, '/').drop_last().filter(keep) =~= Seq::<Seq<char>>::empty());
            assert(split(base, '/').filter(keep) =~= Seq::<Seq<char>>::empty());
        }
        assert(components(whole) =~= components(base) + split(path, '/').filter(keep));
    } else if base.last() == '/' {
        let shorter = base.drop_last();
        assert(base =~= shorter.push('/'));
        assert(whole =~= shorter.push('/') + path);
        text::lemma_split_parts(shorter, '/', path);
        text::lemma_split_nonempty(shorter, '/');
        assert(split(base, '/') == split(shorter, '/').push(Seq::<char>::empty()));
        assert(split(base, '/').drop_last() =~= split(shorter, '/'));
        assert(split(base, '/').filter(keep) == split(shorter, '/').filter(keep));
        Seq::filter_distributes_over_add(split(shorter, '/'), split(path, '/'), keep);
        assert(split(whole, '/')[0] == split(shorter, '/')[0]);
        assert(split(base, '/')[0] == split(shorter, '/')[0]);
        assert(whole[0] == base[0]);
        assert(components(whole) =~= components(base) + split(path, '/').filter(keep));
    } else {
        text::lemma_split_parts(base, '/', path);
        Seq::filter_distributes_over_add(split(base, '/'), split(path, '/'), keep);
        assert(split(whole, '/')[0] == split(base, '/')[0]);
        assert(whole[0] == base[0]);
        assert(components(whole) =~= components(base) + split(path, '/').filter(keep));
    }
}

/// Pieces that all name something are all kept.
pub proof fn lemma_all_kept(pieces: Seq<Seq<char>>)
    requires
        forall|i: int|
            0 <= i < pieces.len() ==> (#[trigger] pieces[i]).len() > 0 && pieces[i] != "."@,
    ensures
        pieces.filter(names_something()) == pieces,
    decreases pieces.len(),
{
    reveal(Seq::filter);
    if pieces.len() > 0 {
        let shorter = pieces.drop_last();
        assert forall|i: int| 0 <= i < shorter.len() implies (#[trigger] shorter[i]).len() > 0
            && shorter[i] != "."@ by {
            assert(shorter[i] == pieces[i]);
        }
        lemma_all_kept(shorter);
        assert(pieces.last() == pieces[pieces.len() - 1]);
        assert(shorter.push(pieces.last()) =~= pieces);
    } else {
        assert(pieces.filter(names_something()) =~= pieces);
    }
}

/// How paths are joined: an absolute path stands for itself, and so does one that is joined to
/// nothing; otherwise there is a slash between the two, and no second one where one is there.
pub proof fn law_joining_paths(base: &str, path: &str, r: String)
    requires
        call_ensures(join, (base, path), r),
    ensures
        path@.len() > 0 && path@[0] == '/' ==> r@ == path@,
        base@.len() == 0 ==> r@ == path@,
        !(path@.len() > 0 && path@[0] == '/') && base@.len() > 0 && base@.last() == '/' ==> r@
            == base@ + path@,
        !(path@.len() > 0 && path@[0] == '/') && base@.len() > 0 && base@.last() != '/' ==> r@
            == base@ + seq!['/'] + path@,
{
    assert(base@.push('/') + path@ =~= base@ + seq!['/'] + path@);
}

/// Names between single slashes are the components of a path, behind the root where it is absolute.
pub proof fn law_components_of_names(names: Seq<Seq<char>>)
    requires
        names.len() >= 1,
        forall|i: int|
            0 <= i < names.len() ==> (#[trigger] names[i]).len() > 0 && names[i] != "."@
                && !names[i].contains('/'),
    ensures
        components(text::joined(names, seq!['/'])) == names,
        components(seq!['/'] + text::joined(names, seq!['/'])) == seq!["/"@] + names,
{
    let rel = text::joined(names, seq!['/']);
    let whole = seq!['/'] + rel;
    let keep = names_something();
    text::law_splitting_undoes_joining(names, '/');
    lemma_all_kept(names);
    assert(names[0].contains(names[0][0]));
    lemma_first_piece(rel);
    assert(components(rel) =~= names);
    let none = Seq::<char>::empty();
    assert(whole =~= none.push('/') + rel);
    text::lemma_split_parts(none, '/', rel);
    assert(split(none, '/') =~= seq![none]);
    Seq::filter_distributes_over_add(seq![none], names, keep);
    lemma_nothing_kept();
    assert(components(whole) =~= seq!["/"@] + names);
}

/// A string begins with its first piece.
proof fn lemma_first_piece(s: Seq<char>)
    ensures
        split(s, '/')[0].len() > 0 ==> s.len() > 0 && s[0] == split(s, '/')[0][0],
        split(s, '/').len() >= 1,
        split(s, '/').len() == 1 ==> split(s, '/')[0] == s,
    decreases s.len(),
{
    if s.len() > 0 {
        lemma_first_piece(s.drop_last());
        assert(s.len() > 1 ==> s.drop_last()[0] == s[0]);
        assert(s =~= s.drop_last().push(s.last()));
    } else {
        assert(s =~= Seq::<char>::empty());
    }
}

/// An empty piece names nothing, nor does `.`.
proof fn lemma_nothing_kept()
    ensures
        seq![Seq::<char>::empty()].filter(names_something()) == Seq::<Seq<char>>::empty(),
        seq!["."@].filter(names_something()) == Seq::<Seq<char>>::empty(),
{
    reveal(Seq::filter);
    let keep = names_something();
    let a = seq![Seq::<char>::empty()];
    let b = seq!["."@];
    assert(a.drop_last() =~= Seq::<Seq<char>>::empty());
    assert(b.drop_last() =~= Seq::<Seq<char>>::empty());
    assert(a.drop_last().filter(keep) =~= Seq::<Seq<char>>::empty());
    assert(b.drop_last().filter(keep) =~= Seq::<Seq<char>>::empty());
    assert(a.filter(keep) =~= Seq::<Seq<char>>::empty());
    assert(b.filter(keep) =~= Seq::<Seq<char>>::empty());
}

/// A piece that names nothing does not count in the middle of a path.
proof fn lemma_piece_does_not_count(a: Seq<char>, piece: Seq<char>, b: Seq<char>)
    requires
        piece.len() == 0 || piece == "."@,
    ensures
        components(a.push('/') + (piece.push('/') + b)) == components(a.push('/') + b),
{
    let keep = names_something();
    let x = a.push('/') + (piece.push('/') + b);
    let y = a.push('/') + b;
    reveal_strlit(".");
    lemma_nothing_kept();
    text::lemma_split_parts(a, '/', piece.push('/') + b);
    text::lemma_split_parts(piece, '/', b);
    text::lemma_split_parts(a, '/', b);
    text::lemma_split_nonempty(a, '/');
    text::lemma_split_single(piece, '/');
    assert(piece.len() == 0 ==> piece =~= Seq::<char>::empty());
    Seq::filter_distributes_over_add(split(a, '/'), split(piece, '/') + split(b, '/'), keep);
    Seq::filter_distributes_over_add(split(piece, '/'), split(b, '/'), keep);
    Seq::filter_distributes_over_add(split(a, '/'), split(b, '/'), keep);
    assert(split(x, '/')[0] == split(a, '/')[0]);
    assert(split(y, '/')[0] == split(a, '/')[0]);
    assert(x[0] == y[0]);
    assert(split(x, '/').filter(keep) =~= split(y, '/').filter(keep));
    assert(components(x) =~= components(y));
}

/// A second slash in a row does not count in a path, nor does a `.` between slashes or behind one at
/// the end, nor a slash at the end; a `.` at the beginning does.
pub proof fn law_components_that_do_not_count(a: Seq<char>, b: Seq<char>)
    ensures
        components(a + seq!['/', '/'] + b) == components(a + seq!['/'] + b),
        components(a + seq!['/', '.', '/'] + b) == components(a + seq!['/'] + b),
        a.len() > 0 ==> components(a + seq!['/']) == components(a),
        components(a + seq!['/', '.']) == components(a + seq!['/']),
        !(b.len() > 0 && b[0] == '/') && split(b, '/')[0] != "."@ ==> components(
            seq!['.', '/'] + b,
        ) == seq!["."@] + components(b),
        components(Seq::empty()) == Seq::<Seq<char>>::empty(),
        components(seq!['/']) == seq!["/"@],
        components(seq!['.']) == seq!["."@],
{
    let none = Seq::<char>::empty();
    let keep = names_something();
    reveal_strlit(".");
    lemma_nothing_kept();
    assert(a + seq!['/'] + b =~= a.push('/') + b);
    assert(a + seq!['/', '/'] + b =~= a.push('/') + (none.push('/') + b));
    lemma_piece_does_not_count(a, none, b);
    assert("."@ =~= seq!['.']);
    assert(a + seq!['/', '.', '/'] + b =~= a.push('/') + ("."@.push('/') + b));
    lemma_piece_does_not_count(a, "."@, b);
    if a.len() > 0 {
        assert(a + seq!['/'] =~= a.push('/') + none);
        text::lemma_split_parts(a, '/', none);
        text::lemma_split_nonempty(a, '/');
        assert(split(none, '/') =~= seq![none]);
        Seq::filter_distributes_over_add(split(a, '/'), split(none, '/'), keep);
        assert((a + seq!['/'])[0] == a[0]);
        assert(components(a + seq!['/']) =~= components(a));
    }
    text::lemma_split_parts(a, '/', none);
    text::lemma_split_parts(a, '/', "."@);
    text::lemma_split_nonempty(a, '/');
    text::lemma_split_single("."@, '/');
    assert(split(none, '/') =~= seq![none]);
    assert(a + seq!['/'] =~= a.push('/') + none);
    assert(a + seq!['/', '.'] =~= a.push('/') + "."@);
    Seq::filter_distributes_over_add(split(a, '/'), split(none, '/'), keep);
    Seq::filter_distributes_over_add(split(a, '/'), split("."@, '/'), keep);
    assert((a + seq!['/'])[0] == (a + seq!['/', '.'])[0]);
    assert(components(a + seq!['/', '.']) =~= components(a + seq!['/']));
    assert(none.len() != "."@.len());
    assert(components(none) =~= Seq::<Seq<char>>::empty());
    text::lemma_split_parts(none, '/', none);
    Seq::filter_distributes_over_add(split(none, '/'), split(none, '/'), keep);
    assert(seq!['/'] =~= none.push('/') + none);
    assert(components(seq!['/']) =~= seq!["/"@]);
    assert(components(seq!['.']) =~= seq!["."@]);
    if !(b.len() > 0 && b[0] == '/') && split(b, '/')[0] != "."@ {
        let dot = "."@;
        assert(seq!['.', '/'] + b =~= dot.push('/') + b);
        text::lemma_split_parts(dot, '/', b);
        text::lemma_split_single(dot, '/');
        Seq::filter_distributes_over_add(split(dot, '/'), split(b, '/'), keep);
        assert((seq!['.', '/'] + b)[0] == '.');
        assert(components(seq!['.', '/'] + b) =~= seq!["."@] + components(b));
    }
}

/// A path lies under another if and only if its components begin with those of the other.
pub proof fn law_what_lies_under(
    path: &str,
    base: &str,
    below: bool,
    path_components: Vec<String>,
    base_components: Vec<String>,
)
    requires
        call_ensures(under, (path, base), below),
        call_ensures(components_of, (path,), path_components),
        call_ensures(components_of, (base,), base_components),
    ensures
        below <==> base_components@.len() <= path_components@.len() && forall|i: int|
            0 <= i < base_components@.len() ==> (#[trigger] base_components@[i])@
                == path_components@[i]@,
{
    let p = path_components.deep_view();
    let b = base_components.deep_view();
    if below {
        assert forall|i: int| 0 <= i < base_components@.len() implies (
        #[trigger] base_components@[i])@ == path_components@[i]@ by {
            assert(b[i] == p.subrange(0, b.len() as int)[i]);
        }
    } else if base_components@.len() <= path_components@.len() && forall|i: int|
        0 <= i < base_components@.len() ==> (#[trigger] base_components@[i])@
            == path_components@[i]@ {
        assert forall|i: int| 0 <= i < b.len() implies b[i] == p[i] by {
            assert(b[i] == base_components@[i]@);
        }
        assert(b =~= p.subrange(0, b.len() as int));
    }
}

/// What is joined to a path lies under it, unless it is absolute.
pub proof fn law_joined_path_lies_under(base: Seq<char>, path: Seq<char>)
    requires
        path.len() == 0 || path[0] != '/',
    ensures
        lies_under(joined_path(base, path), base),
{
    let whole = components(joined_path(base, path));
    if base.len() > 0 {
        lemma_components_of_joined(base, path);
    } else {
        lemma_nothing_kept();
        assert(split(base, '/') =~= seq![Seq::<char>::empty()]);
        reveal_strlit(".");
        assert(split(base, '/')[0].len() != "."@.len());
        assert(components(base) =~= Seq::<Seq<char>>::empty());
    }
    assert(components(base) =~= whole.subrange(0, components(base).len() as int));
}

/// The directory of a path is named by its last component but one, unless that is the root, `.` or
/// `..`.
pub proof fn law_parent_name(path: &str, all: Vec<String>, r: Option<String>)
    requires
        call_ensures(components_of, (path,), all),
        call_ensures(parent_name_of, (path,), r),
    ensures
        ({
            let n = all@.len() as int;
            if n >= 2 && all@[n - 2]@ != "/"@ && all@[n - 2]@ != "."@ && all@[n - 2]@ != ".."@ {
                r matches Some(name) && name@ == all@[n - 2]@
            } else {
                r is None
            }
        }),
{
    let n = all@.len() as int;
    if n >= 2 {
        assert(all.deep_view()[n - 2] == all@[n - 2]@);
    }
}

} // verus!
