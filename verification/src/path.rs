//! File paths as text with `/` between the components.
//!
//! A path is read the way Unix reads it: a leading `/` is the root; empty
//! components and `.` components are skipped, except a `.` that starts a
//! relative path; `..` is kept as it stands.
//!
//! This is the reading of this library on every system. It is not that of
//! Windows: a backslash is no separator here, and a drive or another prefix
//! is a name like any other. A caller on Windows hands over paths with `/`
//! between the components, and gets such paths back.

use crate::text::{from_chars, strs, to_chars};
use vstd::prelude::*;

verus! {

/// Whether `p` starts at the root.
pub open spec fn has_root(p: Seq<char>) -> bool {
    p.len() > 0 && p[0] == '/'
}

/// Whether `p` starts with a `.` component.
pub open spec fn starts_with_cur_dir(p: Seq<char>) -> bool {
    p.len() > 0 && p[0] == '.' && (p.len() == 1 || p[1] == '/')
}

/// The number of characters of `p` that stand before its body: one for the
/// root or for a leading `.`, else none.
pub open spec fn body_start(p: Seq<char>) -> int {
    if has_root(p) || starts_with_cur_dir(p) {
        1
    } else {
        0
    }
}

/// Whether the character before position `e` ends a skipped component of the
/// body that starts at `floor`: it is a separator, or a `.` that is a
/// component by itself.
pub open spec fn skipped_before(p: Seq<char>, floor: int, e: int) -> bool {
    floor < e <= p.len() && (p[e - 1] == '/' || (p[e - 1] == '.' && (e - 1 == floor || p[e - 2]
        == '/')))
}

/// The end of `p[floor..e]` once the skipped components at its end are gone.
pub open spec fn trimmed_end(p: Seq<char>, floor: int, e: int) -> int
    decreases e,
{
    if 0 <= floor && skipped_before(p, floor, e) {
        trimmed_end(p, floor, e - 1)
    } else {
        e
    }
}

/// The start of the component of `p[floor..]` that ends at `e`.
pub open spec fn segment_start(p: Seq<char>, floor: int, e: int) -> int
    decreases e,
{
    if 0 <= floor < e <= p.len() && p[e - 1] != '/' {
        segment_start(p, floor, e - 1)
    } else {
        e
    }
}

/// The index of the last `.` of `p[s..e]`, or `s - 1` if it holds none.
pub open spec fn last_dot(p: Seq<char>, s: int, e: int) -> int
    decreases e,
{
    if 0 <= s < e <= p.len() && p[e - 1] != '.' {
        last_dot(p, s, e - 1)
    } else {
        e - 1
    }
}

/// The two dots that name the parent directory.
pub open spec fn dot_dot() -> Seq<char> {
    seq!['.', '.']
}

/// Where the last component of `p` stands, if `p` ends in a component that
/// is a name: not the root, not `.`, not `..`.
pub open spec fn file_name_range(p: Seq<char>) -> Option<(int, int)> {
    let f = body_start(p);
    let e = trimmed_end(p, f, p.len() as int);
    let s = segment_start(p, f, e);
    if e <= f || p.subrange(s, e) == dot_dot() {
        None
    } else {
        Some((s, e))
    }
}

/// The last component of `p`, if it is a name.
pub open spec fn file_name_spec(p: Seq<char>) -> Option<Seq<char>> {
    match file_name_range(p) {
        Some((s, e)) => Some(p.subrange(s, e)),
        None => None,
    }
}

/// What follows the last `.` of the file name of `p`, if the name holds a
/// `.` that is not its first character.
pub open spec fn extension_spec(p: Seq<char>) -> Option<Seq<char>> {
    match file_name_range(p) {
        Some((s, e)) => {
            let d = last_dot(p, s, e);
            if d > s {
                Some(p.subrange(d + 1, e))
            } else {
                None
            }
        },
        None => None,
    }
}

/// `p` with the extension of its file name replaced by `ext`; `p` itself if
/// it has no file name. An empty `ext` only removes the extension.
pub open spec fn with_extension_spec(p: Seq<char>, ext: Seq<char>) -> Seq<char> {
    match file_name_range(p) {
        Some((s, e)) => {
            let d = last_dot(p, s, e);
            let stem_end = if d > s {
                d
            } else {
                e
            };
            if ext.len() == 0 {
                p.subrange(0, stem_end)
            } else {
                p.subrange(0, stem_end).push('.') + ext
            }
        },
        None => p,
    }
}

/// `p` without its last component: nothing for the root and for the empty
/// path.
pub open spec fn parent_spec(p: Seq<char>) -> Option<Seq<char>> {
    let f = body_start(p);
    let e = trimmed_end(p, f, p.len() as int);
    if e > f {
        let s = segment_start(p, f, e);
        let cut = if s > f {
            s - 1
        } else {
            f
        };
        Some(p.subrange(0, trimmed_end(p, f, cut)))
    } else if starts_with_cur_dir(p) {
        Some(Seq::empty())
    } else {
        None
    }
}

/// `rel` appended to `base` as further components. An absolute `rel` stands
/// for itself.
pub open spec fn join_spec(base: Seq<char>, rel: Seq<char>) -> Seq<char> {
    if has_root(rel) {
        rel
    } else if base.len() == 0 || base.last() == '/' {
        base + rel
    } else {
        base.push('/') + rel
    }
}

/// The components of `p[floor..e]`, skipped ones left out.
pub open spec fn body_components(p: Seq<char>, floor: int, e: int) -> Seq<Seq<char>>
    decreases e,
{
    let e2 = trimmed_end(p, floor, e);
    let s = segment_start(p, floor, e2);
    if 0 <= floor < e2 <= e && floor <= s < e2 {
        body_components(p, floor, s).push(p.subrange(s, e2))
    } else {
        Seq::empty()
    }
}

/// The components of `p`: `/` for the root, `.` for a leading `.`, then
/// those of the body.
pub open spec fn components_spec(p: Seq<char>) -> Seq<Seq<char>> {
    let head = if has_root(p) {
        seq![seq!['/']]
    } else if starts_with_cur_dir(p) {
        seq![seq!['.']]
    } else {
        Seq::empty()
    };
    head + body_components(p, body_start(p), p.len() as int)
}

/// Whether the components of `child` are the last components of `p`.
pub open spec fn ends_with_spec(p: Seq<char>, child: Seq<char>) -> bool {
    components_spec(child).is_suffix_of(components_spec(p))
}

/// Whether `a` and `b` name the same path: whether their components agree.
pub open spec fn same_path_spec(a: Seq<char>, b: Seq<char>) -> bool {
    components_spec(a) == components_spec(b)
}

fn body_start_of(x: &Vec<char>) -> (f: usize)
    ensures
        f == body_start(x@),
        f <= x.len(),
{
    if x.len() > 0 && (x[0] == '/' || (x[0] == '.' && (x.len() == 1 || x[1] == '/'))) {
        1
    } else {
        0
    }
}

fn trim_end_at(x: &Vec<char>, floor: usize, end: usize) -> (e: usize)
    requires
        floor <= end <= x.len(),
    ensures
        e == trimmed_end(x@, floor as int, end as int),
        floor <= e <= end,
        !skipped_before(x@, floor as int, e as int),
{
    let mut e: usize = end;
    while e > floor && (x[e - 1] == '/' || (x[e - 1] == '.' && (e - 1 == floor || x[e - 2]
        == '/')))
        invariant
            floor <= e <= end <= x.len(),
            trimmed_end(x@, floor as int, end as int) == trimmed_end(x@, floor as int, e as int),
        decreases e,
    {
        e -= 1;
    }
    e
}

fn segment_start_at(x: &Vec<char>, floor: usize, end: usize) -> (s: usize)
    requires
        floor <= end <= x.len(),
    ensures
        s == segment_start(x@, floor as int, end as int),
        floor <= s <= end,
        s > floor ==> x@[s - 1] == '/',
        forall|j: int| s <= j < end ==> x@[j] != '/',
{
    let mut s: usize = end;
    while s > floor && x[s - 1] != '/'
        invariant
            floor <= s <= end <= x.len(),
            segment_start(x@, floor as int, end as int) == segment_start(
                x@,
                floor as int,
                s as int,
            ),
            forall|j: int| s <= j < end ==> x@[j] != '/',
        decreases s,
    {
        s -= 1;
    }
    s
}

fn file_name_bounds(x: &Vec<char>) -> (r: Option<(usize, usize)>)
    ensures
        match r {
            Some((s, e)) => file_name_range(x@) == Some((s as int, e as int)) && s < e
                <= x.len(),
            None => file_name_range(x@) is None,
        },
{
    let f = body_start_of(x);
    let e = trim_end_at(x, f, x.len());
    if e <= f {
        return None;
    }
    let s = segment_start_at(x, f, e);
    if e - s == 2 && x[s] == '.' && x[s + 1] == '.' {
        assert(x@.subrange(s as int, e as int) =~= dot_dot());
        return None;
    }
    proof {
        let seg = x@.subrange(s as int, e as int);
        if seg == dot_dot() {
            assert(seg.len() == 2);
            assert(seg[0] == '.' && seg[1] == '.');
        }
        assert(s < e);
    }
    Some((s, e))
}

fn last_dot_at(x: &Vec<char>, s: usize, e: usize) -> (d: Option<usize>)
    requires
        s <= e <= x.len(),
    ensures
        match d {
            Some(i) => i == last_dot(x@, s as int, e as int) && s <= i < e,
            None => last_dot(x@, s as int, e as int) == s - 1,
        },
{
    let mut i: usize = e;
    while i > s && x[i - 1] != '.'
        invariant
            s <= i <= e <= x.len(),
            last_dot(x@, s as int, e as int) == last_dot(x@, s as int, i as int),
        decreases i,
    {
        i -= 1;
    }
    if i > s {
        Some(i - 1)
    } else {
        None
    }
}

/// The last component of `p`, if it is a name.
pub fn file_name(p: &str) -> (r: Option<String>)
    ensures
        match r {
            Some(name) => file_name_spec(p@) == Some(name@),
            None => file_name_spec(p@) is None,
        },
{
    let x = to_chars(p);
    match file_name_bounds(&x) {
        Some((s, e)) => Some(from_chars(&x, s, e)),
        None => None,
    }
}

/// The extension of the file name of `p`.
pub fn extension(p: &str) -> (r: Option<String>)
    ensures
        match r {
            Some(ext) => extension_spec(p@) == Some(ext@),
            None => extension_spec(p@) is None,
        },
{
    let x = to_chars(p);
    match file_name_bounds(&x) {
        Some((s, e)) => {
            match last_dot_at(&x, s, e) {
                Some(d) => {
                    if d > s {
                        Some(from_chars(&x, d + 1, e))
                    } else {
                        None
                    }
                },
                None => None,
            }
        },
        None => None,
    }
}

/// `p` with the extension of its file name replaced by `ext`.
pub fn with_extension(p: &str, ext: &str) -> (out: String)
    ensures
        out@ == with_extension_spec(p@, ext@),
{
    let x = to_chars(p);
    match file_name_bounds(&x) {
        Some((s, e)) => {
            let stem_end: usize = match last_dot_at(&x, s, e) {
                Some(d) => {
                    if d > s {
                        d
                    } else {
                        e
                    }
                },
                None => e,
            };
            let mut out = from_chars(&x, 0, stem_end);
            if !ext.is_empty() {
                out.push('.');
                out.append(ext);
            }
            out
        },
        None => p.to_owned(),
    }
}

/// `p` without its last component.
pub fn parent(p: &str) -> (r: Option<String>)
    ensures
        match r {
            Some(dir) => parent_spec(p@) == Some(dir@),
            None => parent_spec(p@) is None,
        },
{
    let x = to_chars(p);
    let f = body_start_of(&x);
    let e = trim_end_at(&x, f, x.len());
    if e > f {
        let s = segment_start_at(&x, f, e);
        let cut: usize = if s > f {
            s - 1
        } else {
            f
        };
        let end = trim_end_at(&x, f, cut);
        Some(from_chars(&x, 0, end))
    } else if x.len() > 0 && x[0] == '.' && (x.len() == 1 || x[1] == '/') {
        let empty = from_chars(&x, 0, 0);
        assert(empty@ =~= Seq::<char>::empty());
        Some(empty)
    } else {
        None
    }
}

/// `rel` appended to `base` as further components.
pub fn join(base: &str, rel: &str) -> (out: String)
    ensures
        out@ == join_spec(base@, rel@),
{
    let r = to_chars(rel);
    if r.len() > 0 && r[0] == '/' {
        return rel.to_owned();
    }
    let b = to_chars(base);
    let mut out = base.to_owned();
    if b.len() > 0 && b[b.len() - 1] != '/' {
        out.push('/');
    }
    out.append(rel);
    out
}

/// The components of `p`, first to last.
pub fn components(p: &str) -> (out: Vec<String>)
    ensures
        strs(out@) == components_spec(p@),
{
    let x = to_chars(p);
    let f = body_start_of(&x);
    // Collected last to first, then turned round.
    let mut back: Vec<String> = Vec::new();
    let mut e: usize = x.len();
    loop
        invariant_except_break
            f <= e <= x.len(),
            f == body_start(x@),
            body_components(x@, f as int, x.len() as int) == body_components(
                x@,
                f as int,
                e as int,
            ) + strs(back@).reverse(),
        ensures
            body_components(x@, f as int, x.len() as int) == strs(back@).reverse(),
        decreases e,
    {
        let e2 = trim_end_at(&x, f, e);
        if e2 <= f {
            assert(body_components(x@, f as int, e as int) + strs(back@).reverse() =~= strs(
                back@,
            ).reverse());
            break;
        }
        let s = segment_start_at(&x, f, e2);
        let name = from_chars(&x, s, e2);
        proof {
            assert(s < e2);
            assert(strs(back@.push(name)).reverse() =~= seq![name@] + strs(back@).reverse());
            assert(body_components(x@, f as int, s as int).push(name@) + strs(back@).reverse()
                =~= body_components(x@, f as int, s as int) + (seq![name@] + strs(
                back@,
            ).reverse()));
        }
        back.push(name);
        e = s;
    }
    let mut out: Vec<String> = Vec::new();
    if x.len() > 0 && x[0] == '/' {
        out.push("/".to_owned());
        proof {
            reveal_strlit("/");
            assert("/"@ =~= seq!['/']);
        }
    } else if f == 1 {
        out.push(".".to_owned());
        proof {
            reveal_strlit(".");
            assert("."@ =~= seq!['.']);
        }
    }
    let ghost head = strs(out@);
    assert(head + strs(back@).reverse() == components_spec(x@)) by {
        assert(strs(Seq::<String>::empty()) =~= Seq::<Seq<char>>::empty());
        if has_root(x@) {
            assert(head =~= seq![seq!['/']]);
        } else if starts_with_cur_dir(x@) {
            assert(head =~= seq![seq!['.']]);
        } else {
            assert(head =~= Seq::<Seq<char>>::empty());
        }
    }
    let mut i: usize = back.len();
    while i > 0
        invariant
            i <= back.len(),
            strs(out@) == head + strs(back@).reverse().take(back.len() - i),
        decreases i,
    {
        i -= 1;
        let item = back[i].clone();
        proof {
            let rev = strs(back@).reverse();
            assert(rev[back.len() - 1 - i] == item@);
            assert(strs(out@.push(item)) =~= strs(out@).push(item@));
            assert(rev.take(back.len() - i) =~= rev.take(back.len() - i - 1).push(item@));
            assert(head + rev.take(back.len() - i) =~= (head + rev.take(back.len() - i - 1)).push(
                item@,
            ));
        }
        out.push(item);
    }
    proof {
        let rev = strs(back@).reverse();
        assert(rev.take(back.len() as int) =~= rev);
    }
    out
}

/// Whether the items of `a` are the last items of `b`.
fn is_suffix(a: &Vec<String>, b: &Vec<String>) -> (r: bool)
    ensures
        r == strs(a@).is_suffix_of(strs(b@)),
{
    let ghost sa = strs(a@);
    let ghost sb = strs(b@);
    if a.len() > b.len() {
        return false;
    }
    let off: usize = b.len() - a.len();
    let mut i: usize = 0;
    while i < a.len()
        invariant
            i <= a.len(),
            off + a.len() == b.len(),
            sa == strs(a@),
            sb == strs(b@),
            forall|j: int| 0 <= j < i ==> sa[j] == sb[off + j],
        decreases a.len() - i,
    {
        if !crate::text::same(a[i].as_str(), b[off + i].as_str()) {
            assert(sa[i as int] != sb[off + i]);
            assert(sb.subrange(sb.len() - sa.len(), sb.len() as int)[i as int] == sb[off + i]);
            return false;
        }
        i += 1;
    }
    assert(sb.subrange(sb.len() - sa.len(), sb.len() as int) =~= sa);
    true
}

/// Whether the components of `child` are the last components of `p`.
pub fn ends_with(p: &str, child: &str) -> (r: bool)
    ensures
        r == ends_with_spec(p@, child@),
{
    let a = components(child);
    let b = components(p);
    is_suffix(&a, &b)
}

/// Whether `a` and `b` name the same path.
pub fn same_path(a: &str, b: &str) -> (r: bool)
    ensures
        r == same_path_spec(a@, b@),
{
    let x = components(a);
    let y = components(b);
    if x.len() != y.len() {
        assert(strs(x@).len() != strs(y@).len());
        return false;
    }
    let r = is_suffix(&x, &y);
    proof {
        let sx = strs(x@);
        let sy = strs(y@);
        assert(sy.subrange(0, sy.len() as int) =~= sy);
    }
    r
}

} // verus!
