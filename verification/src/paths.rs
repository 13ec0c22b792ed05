//! File paths as the engine reads them: a path is split at `/` into
//! components, as `std::path::Path` does on Unix. Empty pieces and `.`
//! pieces vanish, but for a leading `.`; a leading `/` is the root.
use vstd::prelude::*;
use vstd::string::StringExecFns;
use crate::text::{chars_of, owned, string_from_chars};

verus! {

/// The pieces of `s` between `/` separators, empty ones included.
pub open spec fn pieces(s: Seq<char>) -> Seq<Seq<char>>
    decreases s.len(),
{
    if s.len() == 0 {
        seq![Seq::empty()]
    } else {
        let p = pieces(s.drop_last());
        if s.last() == '/' {
            p.push(Seq::empty())
        } else {
            p.update(p.len() - 1, p.last().push(s.last()))
        }
    }
}

/// A piece that names something: neither empty nor `.`.
pub open spec fn is_named(p: Seq<char>) -> bool {
    p.len() > 0 && p != seq!['.']
}

/// The named pieces of `ps`, in order.
pub open spec fn named(ps: Seq<Seq<char>>) -> Seq<Seq<char>>
    decreases ps.len(),
{
    if ps.len() == 0 {
        Seq::empty()
    } else if is_named(ps.last()) {
        named(ps.drop_last()).push(ps.last())
    } else {
        named(ps.drop_last())
    }
}

/// The path starts at the root.
pub open spec fn has_root(s: Seq<char>) -> bool {
    s.len() > 0 && s[0] == '/'
}

/// The components of a path: the root `/` or a leading `.` when there is
/// one, then the named pieces.
pub open spec fn components(s: Seq<char>) -> Seq<Seq<char>> {
    if has_root(s) {
        seq![seq!['/']] + named(pieces(s))
    } else if pieces(s)[0] == seq!['.'] {
        seq![seq!['.']] + named(pieces(s))
    } else {
        named(pieces(s))
    }
}

/// A component that is a file or directory name (not the root, `.` or `..`).
pub open spec fn is_normal(c: Seq<char>) -> bool {
    c != seq!['/'] && c != seq!['.'] && c != seq!['.', '.']
}

/// `Path::file_name`: the last component when it is a name.
pub open spec fn file_name(s: Seq<char>) -> Option<Seq<char>> {
    let c = components(s);
    if c.len() > 0 && is_normal(c.last()) {
        Some(c.last())
    } else {
        None
    }
}

/// Index of the last `.` in `f`, if any.
pub open spec fn last_dot(f: Seq<char>) -> Option<int>
    decreases f.len(),
{
    if f.len() == 0 {
        None
    } else if f.last() == '.' {
        Some(f.len() - 1)
    } else {
        last_dot(f.drop_last())
    }
}

/// `Path::extension`: what follows the last `.` of the file name, unless
/// that `.` opens the name.
pub open spec fn extension(s: Seq<char>) -> Option<Seq<char>> {
    match file_name(s) {
        Some(f) => match last_dot(f) {
            Some(i) => if i == 0 {
                None
            } else {
                Some(f.subrange(i + 1, f.len() as int))
            },
            None => None,
        },
        None => None,
    }
}

/// `Path::starts_with`: the components of `base` begin those of `s`.
pub open spec fn path_starts_with(s: Seq<char>, base: Seq<char>) -> bool {
    let a = components(s);
    let b = components(base);
    b.len() <= a.len() && a.subrange(0, b.len() as int) == b
}

/// Paths equal as `Path` compares them: the same components.
pub open spec fn same_path(a: Seq<char>, b: Seq<char>) -> bool {
    components(a) == components(b)
}

/// The views of a sequence of strings.
pub open spec fn views(v: Seq<Vec<char>>) -> Seq<Seq<char>> {
    Seq::new(v.len(), |i: int| v[i]@)
}

proof fn lemma_pieces_nonempty(s: Seq<char>)
    ensures
        pieces(s).len() > 0,
    decreases s.len(),
{
    if s.len() > 0 {
        lemma_pieces_nonempty(s.drop_last());
    }
}

fn piece_is_named(p: &Vec<char>) -> (r: bool)
    ensures
        r == is_named(p@),
{
    if p.len() == 0 {
        return false;
    }
    if p.len() == 1 && p[0] == '.' {
        assert(p@ == seq!['.']);
        return false;
    }
    assert(p@.len() != 1 ==> p@ != seq!['.']);
    true
}

/// The components of a path, each as its characters.
pub fn components_of(s: &str) -> (r: Vec<Vec<char>>)
    ensures
        views(r@) == components(s@),
{
    let v = chars_of(s);
    let n = v.len();
    let mut out: Vec<Vec<char>> = Vec::new();
    let mut cur: Vec<char> = Vec::new();
    let mut first: bool = true;
    let mut first_piece: Vec<char> = Vec::new();
    proof {
        assert(v@.take(0) =~= Seq::<char>::empty());
    }
    for i in 0..n
        invariant
            n == v@.len(),
            v@ == s@,
            pieces(v@.take(i as int)).len() > 0,
            cur@ == pieces(v@.take(i as int)).last(),
            views(out@) == named(pieces(v@.take(i as int)).drop_last()),
            first <==> pieces(v@.take(i as int)).len() == 1,
            !first ==> first_piece@ == pieces(v@.take(i as int))[0],
    {
        let c = v[i];
        let ghost pre = v@.take(i as int);
        proof {
            assert(v@.take(i + 1).drop_last() =~= pre);
            lemma_pieces_nonempty(pre);
        }
        if c == '/' {
            if first {
                first_piece = cur.clone();
                proof {
                    assert(first_piece@ == cur@);
                }
                first = false;
            }
            let keep = piece_is_named(&cur);
            let ghost ps = pieces(pre);
            proof {
                assert(pieces(v@.take(i + 1)) == ps.push(Seq::empty()));
                assert(pieces(v@.take(i + 1)).drop_last() =~= ps);
                assert(ps =~= ps.drop_last().push(ps.last()));
            }
            if keep {
                let ghost before = views(out@);
                out.push(cur);
                proof {
                    assert(views(out@) =~= before.push(ps.last()));
                }
            }
            cur = Vec::new();
            proof {
                assert(cur@ =~= Seq::<char>::empty());
            }
        } else {
            cur.push(c);
            let ghost ps = pieces(pre);
            proof {
                assert(pieces(v@.take(i + 1)) == ps.update(ps.len() - 1, ps.last().push(c)));
                assert(pieces(v@.take(i + 1)).drop_last() =~= ps.drop_last());
            }
        }
    }
    proof {
        assert(v@.take(n as int) =~= v@);
        lemma_pieces_nonempty(v@);
    }
    let ghost ps = pieces(v@);
    if first {
        first_piece = cur.clone();
    }
    proof {
        assert(ps =~= ps.drop_last().push(ps.last()));
        assert(first_piece@ == ps[0]);
    }
    let keep = piece_is_named(&cur);
    if keep {
        let ghost before = views(out@);
        out.push(cur);
        proof {
            assert(views(out@) =~= before.push(ps.last()));
        }
    }
    let root = n > 0 && v[0] == '/';
    let dot = !root && first_piece.len() == 1 && first_piece[0] == '.';
    proof {
        if !root {
            assert(dot <==> ps[0] == seq!['.']) by {
                if first_piece@.len() == 1 {
                    assert(first_piece@ == seq![first_piece@[0]]);
                }
            }
        }
    }
    if root || dot {
        let mut head: Vec<char> = Vec::new();
        if root {
            head.push('/');
        } else {
            head.push('.');
        }
        let mut r: Vec<Vec<char>> = Vec::new();
        r.push(head);
        let ghost h = r@;
        let ghost tail = views(out@);
        r.append(&mut out);
        proof {
            assert(views(r@) =~= seq![views(h)[0]] + tail);
            if root {
                assert(views(h)[0] =~= seq!['/']);
            } else {
                assert(views(h)[0] =~= seq!['.']);
            }
        }
        r
    } else {
        out
    }
}

/// Two component lists are equal.
fn components_equal(a: &Vec<Vec<char>>, b: &Vec<Vec<char>>, upto: usize) -> (r: bool)
    requires
        upto <= a@.len(),
        upto <= b@.len(),
    ensures
        r == (views(a@).subrange(0, upto as int) == views(b@).subrange(0, upto as int)),
{
    let mut i: usize = 0;
    while i < upto
        invariant
            upto <= a@.len(),
            upto <= b@.len(),
            i <= upto,
            views(a@).subrange(0, i as int) == views(b@).subrange(0, i as int),
        decreases upto - i,
    {
        let x = &a[i];
        let y = &b[i];
        if x.len() != y.len() {
            assert(views(a@).subrange(0, upto as int)[i as int] != views(b@).subrange(0, upto as int)[i as int]);
            return false;
        }
        let mut j: usize = 0;
        assert(views(a@).subrange(0, upto as int)[i as int] == x@);
        assert(views(b@).subrange(0, upto as int)[i as int] == y@);
        while j < x.len()
            invariant
                views(a@).subrange(0, upto as int)[i as int] == x@,
                views(b@).subrange(0, upto as int)[i as int] == y@,
                x@.len() == y@.len(),
                j <= x@.len(),
                forall|k: int| 0 <= k < j ==> x@[k] == y@[k],
            decreases x@.len() - j,
        {
            if x[j] != y[j] {
                assert(x@[j as int] != y@[j as int]);
                assert(x@ != y@);
                return false;
            }
            j = j + 1;
        }
        assert(x@ =~= y@);
        assert(views(a@).subrange(0, i + 1) =~= views(a@).subrange(0, i as int).push(x@));
        assert(views(b@).subrange(0, i + 1) =~= views(b@).subrange(0, i as int).push(y@));
        i = i + 1;
    }
    true
}

/// `Path::starts_with`: whether the components of `base` begin those of `path`.
pub fn starts_with_path(path: &str, base: &str) -> (r: bool)
    ensures
        r == path_starts_with(path@, base@),
{
    let a = components_of(path);
    let b = components_of(base);
    if b.len() > a.len() {
        return false;
    }
    let r = components_equal(&a, &b, b.len());
    assert(views(b@).subrange(0, b@.len() as int) =~= views(b@));
    assert(views(a@).subrange(0, b@.len() as int) =~= components(path@).subrange(0, b@.len() as int));
    r
}

/// `Path::eq`: whether two paths have the same components.
pub fn paths_equal(a: &str, b: &str) -> (r: bool)
    ensures
        r == same_path(a@, b@),
{
    let x = components_of(a);
    let y = components_of(b);
    if x.len() != y.len() {
        return false;
    }
    let r = components_equal(&x, &y, x.len());
    assert(views(x@).subrange(0, x@.len() as int) =~= views(x@));
    assert(views(y@).subrange(0, y@.len() as int) =~= views(y@));
    r
}

/// `Path::file_name`, as an owned string.
pub fn file_name_of(s: &str) -> (r: Option<String>)
    ensures
        match r {
            Some(f) => file_name(s@) == Some(f@),
            None => file_name(s@) is None,
        },
{
    let c = components_of(s);
    if c.len() == 0 {
        return None;
    }
    let last = &c[c.len() - 1];
    let is_root = last.len() == 1 && last[0] == '/';
    let is_dot = last.len() == 1 && last[0] == '.';
    let is_dotdot = last.len() == 2 && last[0] == '.' && last[1] == '.';
    proof {
        assert(views(c@).last() == last@);
        if last@.len() == 1 {
            assert(last@ == seq![last@[0]]);
        }
        if last@.len() == 2 {
            assert(last@ == seq![last@[0], last@[1]]);
        }
    }
    if is_root || is_dot || is_dotdot {
        None
    } else {
        Some(string_from_chars(last.as_slice()))
    }
}

/// `Path::extension`, as an owned string.
pub fn extension_of(s: &str) -> (r: Option<String>)
    ensures
        match r {
            Some(e) => extension(s@) == Some(e@),
            None => extension(s@) is None,
        },
{
    let f = match file_name_of(s) {
        Some(f) => f,
        None => return None,
    };
    let v = chars_of(f.as_str());
    let mut i: usize = v.len();
    assert(v@.take(i as int) =~= v@);
    while i > 0 && v[i - 1] != '.'
        invariant
            i <= v@.len(),
            last_dot(v@) == last_dot(v@.take(i as int)),
        decreases i,
    {
        assert(v@.take(i as int).drop_last() =~= v@.take(i - 1));
        i = i - 1;
    }
    if i == 0 {
        assert(v@.take(0) =~= Seq::<char>::empty());
        return None;
    }
    assert(v@.take(i as int).last() == '.');
    if i == 1 {
        return None;
    }
    let mut e: Vec<char> = Vec::new();
    let mut j: usize = i;
    while j < v.len()
        invariant
            i <= j <= v@.len(),
            e@ == v@.subrange(i as int, j as int),
        decreases v@.len() - j,
    {
        e.push(v[j]);
        assert(v@.subrange(i as int, j + 1) =~= v@.subrange(i as int, j as int).push(v@[j as int]));
        j = j + 1;
    }
    Some(string_from_chars(e.as_slice()))
}

/// `Path::file_stem`: the file name without its extension (the whole name
/// when it has no `.` but at its start).
pub open spec fn file_stem(s: Seq<char>) -> Option<Seq<char>> {
    match file_name(s) {
        Some(f) => match last_dot(f) {
            Some(i) => if i == 0 {
                Some(f)
            } else {
                Some(f.subrange(0, i))
            },
            None => Some(f),
        },
        None => None,
    }
}

/// `Path::file_stem`, as an owned string.
pub fn file_stem_of(s: &str) -> (r: Option<String>)
    ensures
        match r {
            Some(e) => file_stem(s@) == Some(e@),
            None => file_stem(s@) is None,
        },
{
    let f = match file_name_of(s) {
        Some(f) => f,
        None => return None,
    };
    let v = chars_of(f.as_str());
    let mut i: usize = v.len();
    assert(v@.take(i as int) =~= v@);
    while i > 0 && v[i - 1] != '.'
        invariant
            i <= v@.len(),
            last_dot(v@) == last_dot(v@.take(i as int)),
        decreases i,
    {
        assert(v@.take(i as int).drop_last() =~= v@.take(i - 1));
        i = i - 1;
    }
    if i <= 1 {
        if i == 0 {
            assert(v@.take(0) =~= Seq::<char>::empty());
        } else {
            assert(v@.take(1).last() == '.');
        }
        return Some(f);
    }
    assert(v@.take(i as int).last() == '.');
    Some(string_from_chars(&v.as_slice()[0..i - 1]))
}

/// `Path::join` of a relative name onto a directory: a separator is put
/// between them unless the directory is empty or already ends with one.
pub open spec fn joined(dir: Seq<char>, name: Seq<char>) -> Seq<char> {
    if dir.len() > 0 && dir.last() != '/' {
        dir + seq!['/'] + name
    } else {
        dir + name
    }
}

/// `Path::join` of a relative name onto a directory.
pub fn join_path(dir: &str, name: &str) -> (r: String)
    ensures
        r@ == joined(dir@, name@),
{
    let mut s = owned(dir);
    let n = dir.unicode_len();
    if n > 0 && dir.get_char(n - 1) != '/' {
        s.append("/");
        proof {
            reveal_strlit("/");
        }
    }
    s.append(name);
    s
}

} // verus!
