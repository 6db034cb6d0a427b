//! Whether a requested path leads to a file inside the served directory.
//!
//! Paths are compared by components, as `std::path` compares them: repeated
//! `/` separators and `.` components do not count. A `..` component climbs
//! one level; a path that climbs above the served directory leaves it.

use vstd::prelude::*;
use vstd::string::StrSliceExecFns;
use vstd::string::StringExecFns;

verus! {

/// A path component that names the parent directory.
pub open spec fn is_parent(c: Seq<char>) -> bool {
    c.len() == 2 && c[0] == '.' && c[1] == '.'
}

/// A piece between separators that names no component: empty or `.`.
pub open spec fn is_current(c: Seq<char>) -> bool {
    c.len() == 0 || (c.len() == 1 && c[0] == '.')
}

/// The components that the finished piece `c` contributes.
pub open spec fn finish(c: Seq<char>) -> Seq<Seq<char>> {
    if is_current(c) {
        Seq::empty()
    } else {
        seq![c]
    }
}

/// The components of the rest `s` of a path whose current piece so far is
/// `cur`.
pub open spec fn comps_from(s: Seq<char>, cur: Seq<char>) -> Seq<Seq<char>>
    decreases s.len(),
{
    if s.len() == 0 {
        finish(cur)
    } else if s[0] == '/' {
        finish(cur) + comps_from(s.drop_first(), Seq::empty())
    } else {
        comps_from(s.drop_first(), cur.push(s[0]))
    }
}

/// The components of the path `s`, without its root, empty pieces or `.`.
pub open spec fn components(s: Seq<char>) -> Seq<Seq<char>> {
    comps_from(s, Seq::empty())
}

/// Walking the components `cs` from `depth` levels below a directory never
/// climbs above that directory.
pub open spec fn stays_below(cs: Seq<Seq<char>>, depth: int) -> bool
    decreases cs.len(),
{
    if cs.len() == 0 {
        true
    } else if is_parent(cs[0]) {
        depth > 0 && stays_below(cs.drop_first(), depth - 1)
    } else {
        stays_below(cs.drop_first(), depth + 1)
    }
}

/// The path starts at the root.
pub open spec fn is_absolute(s: Seq<char>) -> bool {
    s.len() > 0 && s[0] == '/'
}

/// The components of `base` begin the absolute path `path`: an absolute
/// `base` whose components start those of `path`, or an empty `base`.
pub open spec fn under_base(base: Seq<char>, path: Seq<char>) -> bool {
    &&& base.len() == 0 || is_absolute(base)
    &&& components(base).len() <= components(path).len()
    &&& components(path).subrange(0, components(base).len() as int) == components(base)
}

/// The file that `path` names, joined to the served directory `base`, lies
/// inside `base`: an absolute path must run through `base` and a relative
/// one is read from `base`; in both, the components after `base`, with `..`
/// resolved, never climb above `base`.
pub open spec fn path_within(base: Seq<char>, path: Seq<char>) -> bool {
    if is_absolute(path) {
        under_base(base, path) && stays_below(
            components(path).skip(components(base).len() as int),
            0,
        )
    } else {
        stays_below(components(path), 0)
    }
}

/// The text of each component.
pub open spec fn comps_view(v: Seq<Vec<char>>) -> Seq<Seq<char>> {
    v.map_values(|c: Vec<char>| c@)
}

/// Splits a path into its components.
fn split_components(s: &str) -> (r: Vec<Vec<char>>)
    ensures
        comps_view(r@) == components(s@),
{
    let n: usize = s.unicode_len();
    let mut out: Vec<Vec<char>> = Vec::new();
    let mut cur: Vec<char> = Vec::new();
    let mut i: usize = 0;
    assert(s@.skip(0) =~= s@);
    assert(comps_view(out@) =~= Seq::<Seq<char>>::empty());
    while i < n
        invariant
            n == s@.len(),
            i <= n,
            components(s@) =~= comps_view(out@) + comps_from(s@.skip(i as int), cur@),
        decreases n - i,
    {
        let ch = s.get_char(i);
        let ghost rest = s@.skip(i as int);
        assert(rest[0] == ch);
        assert(rest.drop_first() =~= s@.skip(i + 1));
        if ch == '/' {
            let current: bool = cur.len() == 0 || (cur.len() == 1 && cur[0] == '.');
            let ghost old_out = out@;
            let ghost old_cur = cur@;
            if !current {
                out.push(cur);
                assert(comps_view(out@) =~= comps_view(old_out) + finish(old_cur));
            } else {
                assert(comps_view(out@) + finish(old_cur) =~= comps_view(out@));
            }
            cur = Vec::new();
            assert(cur@ =~= Seq::<char>::empty());
        } else {
            cur.push(ch);
        }
        i = i + 1;
    }
    assert(s@.skip(n as int) =~= Seq::<char>::empty());
    let current: bool = cur.len() == 0 || (cur.len() == 1 && cur[0] == '.');
    let ghost old_out = out@;
    let ghost old_cur = cur@;
    if !current {
        out.push(cur);
        assert(comps_view(out@) =~= comps_view(old_out) + finish(old_cur));
    } else {
        assert(comps_view(out@) + finish(old_cur) =~= comps_view(out@));
    }
    out
}

/// Compares two components character by character.
fn same_chars(a: &Vec<char>, b: &Vec<char>) -> (r: bool)
    ensures
        r == (a@ == b@),
{
    if a.len() != b.len() {
        return false;
    }
    let mut i: usize = 0;
    while i < a.len()
        invariant
            a@.len() == b@.len(),
            i <= a@.len(),
            forall|j: int| 0 <= j < i ==> a@[j] == b@[j],
        decreases a@.len() - i,
    {
        if a[i] != b[i] {
            return false;
        }
        i = i + 1;
    }
    assert(a@ =~= b@);
    true
}

/// Whether the components `a` begin the components `b`.
fn comps_prefix(a: &Vec<Vec<char>>, b: &Vec<Vec<char>>) -> (r: bool)
    ensures
        r == (comps_view(a@).len() <= comps_view(b@).len() && comps_view(b@).subrange(
            0,
            comps_view(a@).len() as int,
        ) == comps_view(a@)),
{
    if a.len() > b.len() {
        return false;
    }
    let mut i: usize = 0;
    while i < a.len()
        invariant
            a@.len() <= b@.len(),
            i <= a@.len(),
            forall|j: int| 0 <= j < i ==> a@[j]@ == b@[j]@,
        decreases a@.len() - i,
    {
        if !same_chars(&a[i], &b[i]) {
            assert(comps_view(b@).subrange(0, a@.len() as int)[i as int] != comps_view(a@)[i as int]);
            return false;
        }
        i = i + 1;
    }
    assert(comps_view(b@).subrange(0, a@.len() as int) =~= comps_view(a@));
    true
}

/// Whether the components of `cs` from index `start` on never climb above
/// the directory they start from.
fn comps_stay(cs: &Vec<Vec<char>>, start: usize) -> (r: bool)
    requires
        start <= cs@.len(),
    ensures
        r == stays_below(comps_view(cs@).skip(start as int), 0),
{
    let n: usize = cs.len();
    let mut i: usize = start;
    let mut depth: usize = 0;
    while i < n
        invariant
            n == cs@.len(),
            start <= i <= n,
            depth <= i - start,
            stays_below(comps_view(cs@).skip(start as int), 0) == stays_below(
                comps_view(cs@).skip(i as int),
                depth as int,
            ),
        decreases n - i,
    {
        let ghost rest = comps_view(cs@).skip(i as int);
        assert(rest[0] == cs@[i as int]@);
        assert(rest.drop_first() =~= comps_view(cs@).skip(i + 1));
        let c = &cs[i];
        let parent: bool = c.len() == 2 && c[0] == '.' && c[1] == '.';
        if parent {
            if depth == 0 {
                return false;
            }
            depth = depth - 1;
        } else {
            depth = depth + 1;
        }
        i = i + 1;
    }
    assert(comps_view(cs@).skip(n as int) =~= Seq::<Seq<char>>::empty());
    true
}

/// Whether the file that `path` names, joined to the served directory
/// `base`, lies inside it (see [`path_within`]).
pub fn within_base(base: &str, path: &str) -> (r: bool)
    ensures
        r == path_within(base@, path@),
{
    let n: usize = path.unicode_len();
    if n > 0 && path.get_char(0) == '/' {
        let b: usize = base.unicode_len();
        if !(b == 0 || base.get_char(0) == '/') {
            return false;
        }
        let bc = split_components(base);
        let pc = split_components(path);
        if !comps_prefix(&bc, &pc) {
            return false;
        }
        comps_stay(&pc, bc.len())
    } else {
        let pc = split_components(path);
        assert(comps_view(pc@).skip(0) =~= comps_view(pc@));
        comps_stay(&pc, 0)
    }
}

/// The file read for a request that resolved to `resolved`: the directory's
/// `index.html` when `resolved` is a directory, `resolved` itself otherwise.
/// The name is appended with a separator unless `resolved` is empty or ends
/// in one.
pub open spec fn index_target(resolved: Seq<char>, is_dir: bool) -> Seq<char> {
    if !is_dir {
        resolved
    } else if resolved.len() == 0 || resolved.last() == '/' {
        resolved + "index.html"@
    } else {
        resolved + "/index.html"@
    }
}

/// The file to read for a request that resolved to `resolved`, defaulting
/// to `index.html` inside directories.
pub fn final_file(resolved: &str, is_dir: bool) -> (r: String)
    ensures
        r@ == index_target(resolved@, is_dir),
        !is_dir ==> r@ == resolved@,
        is_dir ==> r@.len() >= resolved@.len() + 10 && r@.subrange(0, resolved@.len() as int)
            == resolved@ && r@.skip(r@.len() - 10) == "index.html"@,
{
    let mut out = String::from_str(resolved);
    if is_dir {
        let n: usize = resolved.unicode_len();
        if n == 0 || resolved.get_char(n - 1) == '/' {
            out.append("index.html");
        } else {
            out.append("/index.html");
        }
    }
    proof {
        lemma_index_target(resolved@, is_dir);
    }
    out
}

/// A path that is not a directory is read as it is; a directory is read
/// through the `index.html` inside it, joined with at most one separator.
pub proof fn lemma_index_target(resolved: Seq<char>, is_dir: bool)
    ensures
        !is_dir ==> index_target(resolved, is_dir) == resolved,
        is_dir ==> {
            let t = index_target(resolved, is_dir);
            &&& t.len() >= resolved.len() + 10
            &&& t.subrange(0, resolved.len() as int) == resolved
            &&& t.skip(t.len() - 10) == "index.html"@
            &&& (t.len() == resolved.len() + 10 || (t.len() == resolved.len() + 11 && t[resolved.len() as int] == '/'))
        },
{
    reveal_strlit("index.html");
    reveal_strlit("/index.html");
    if is_dir {
        let t = index_target(resolved, is_dir);
        if resolved.len() == 0 || resolved.last() == '/' {
            assert(t.subrange(0, resolved.len() as int) =~= resolved);
            assert(t.skip(t.len() - 10) =~= "index.html"@);
        } else {
            assert(t.subrange(0, resolved.len() as int) =~= resolved);
            assert(t.skip(t.len() - 10) =~= "index.html"@);
        }
    }
}

/// No component of a path without `.` names the parent directory.
proof fn lemma_dotless_components(s: Seq<char>, cur: Seq<char>)
    requires
        !s.contains('.'),
        !cur.contains('.'),
    ensures
        forall|k: int|
            0 <= k < comps_from(s, cur).len() ==> !is_parent(#[trigger] comps_from(s, cur)[k]),
    decreases s.len(),
{
    if cur.len() >= 1 {
        assert(cur.contains(cur[0]));
    }
    if s.len() > 0 {
        assert(s.contains(s[0]));
        assert forall|x: char| s.drop_first().contains(x) implies s.contains(x) by {
            let k: int = choose|k: int| 0 <= k < s.drop_first().len() && s.drop_first()[k] == x;
            assert(s[k + 1] == x);
        }
        if s[0] == '/' {
            lemma_dotless_components(s.drop_first(), Seq::empty());
            let tail = comps_from(s.drop_first(), Seq::empty());
            assert(comps_from(s, cur) == finish(cur) + tail);
            assert forall|k: int|
                0 <= k < comps_from(s, cur).len() implies !is_parent(
                #[trigger] comps_from(s, cur)[k],
            ) by {
                if k < finish(cur).len() {
                    assert(comps_from(s, cur)[k] == cur);
                } else {
                    assert(comps_from(s, cur)[k] == tail[k - finish(cur).len()]);
                }
            }
        } else {
            assert forall|x: char| cur.push(s[0]).contains(x) implies cur.contains(x) || x
                == s[0] by {
                let k: int = choose|k: int| 0 <= k < cur.push(s[0]).len() && cur.push(s[0])[k] == x;
                if k < cur.len() {
                    assert(cur[k] == x);
                }
            }
            lemma_dotless_components(s.drop_first(), cur.push(s[0]));
            assert(comps_from(s, cur) == comps_from(s.drop_first(), cur.push(s[0])));
        }
    } else {
        assert forall|k: int|
            0 <= k < comps_from(s, cur).len() implies !is_parent(
            #[trigger] comps_from(s, cur)[k],
        ) by {
            assert(comps_from(s, cur)[k] == cur);
        }
    }
}

/// Components of which none names the parent directory never climb.
proof fn lemma_no_parent_stays(cs: Seq<Seq<char>>, depth: int)
    requires
        depth >= 0,
        forall|k: int| 0 <= k < cs.len() ==> !is_parent(#[trigger] cs[k]),
    ensures
        stays_below(cs, depth),
    decreases cs.len(),
{
    if cs.len() > 0 {
        assert(!is_parent(cs[0]));
        assert forall|k: int| 0 <= k < cs.drop_first().len() implies !is_parent(
            #[trigger] cs.drop_first()[k],
        ) by {
            assert(cs.drop_first()[k] == cs[k + 1]);
        }
        lemma_no_parent_stays(cs.drop_first(), depth + 1);
    }
}

/// A relative path without any `.` never leaves the directory it is read
/// from.
pub proof fn lemma_dotless_paths_stay_within(base: Seq<char>, rel: Seq<char>)
    requires
        !is_absolute(rel),
        !rel.contains('.'),
    ensures
        path_within(base, rel),
{
    let e = Seq::<char>::empty();
    assert(!e.contains('.'));
    lemma_dotless_components(rel, e);
    lemma_no_parent_stays(components(rel), 0);
}

/// A relative path whose first component is `..` leaves the directory it is
/// read from.
pub proof fn lemma_leading_parent_is_outside(base: Seq<char>, rel: Seq<char>)
    requires
        rel.len() >= 2,
        rel[0] == '.',
        rel[1] == '.',
        rel.len() == 2 || rel[2] == '/',
    ensures
        !path_within(base, rel),
{
    let e = Seq::<char>::empty();
    let s1 = rel.drop_first();
    let s2 = s1.drop_first();
    let dd = seq!['.', '.'];
    assert(e.push('.') =~= seq!['.']);
    assert(seq!['.'].push('.') =~= dd);
    assert(components(rel) == comps_from(s1, seq!['.']));
    assert(comps_from(s1, seq!['.']) == comps_from(s2, dd));
    assert(is_parent(dd));
    assert(!is_current(dd));
    if s2.len() == 0 {
        assert(comps_from(s2, dd) =~= seq![dd]);
    } else {
        assert(s2[0] == '/');
        assert(comps_from(s2, dd)[0] == dd);
    }
    assert(components(rel)[0] == dd);
}

/// An absolute path whose components do not begin with those of the served
/// directory lies outside it.
pub proof fn lemma_foreign_absolute_path_is_outside(base: Seq<char>, path: Seq<char>)
    requires
        is_absolute(path),
        !under_base(base, path),
    ensures
        !path_within(base, path),
{
}

} // verus!
