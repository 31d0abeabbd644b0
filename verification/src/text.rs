//! Character-level operations on text, each with its meaning as a function on
//! sequences of characters.

use vstd::prelude::*;

verus! {

/// `String::push` appends one character.
pub assume_specification[ String::push ](s: &mut String, c: char)
    ensures
        final(s)@ == old(s)@.push(c),
;

/// The character sequences of a sequence of strings.
pub open spec fn strs(v: Seq<String>) -> Seq<Seq<char>> {
    v.map_values(|s: String| s@)
}

/// The characters of `s`, in order.
pub(crate) fn to_chars(s: &str) -> (out: Vec<char>)
    ensures
        out@ == s@,
{
    let mut out: Vec<char> = Vec::new();
    for c in it: s.chars()
        invariant
            it.seq() == s@,
            out@ == it.seq().take(it.index() as int),
    {
        out.push(c);
        assert(it.seq().take(it.index() + 1) =~= it.seq().take(it.index() as int).push(c));
    }
    assert(s@.take(s@.len() as int) =~= s@);
    out
}

/// The string whose characters are `chars[from..to]`.
pub(crate) fn from_chars(chars: &Vec<char>, from: usize, to: usize) -> (out: String)
    requires
        from <= to <= chars.len(),
    ensures
        out@ == chars@.subrange(from as int, to as int),
{
    let mut out = String::new();
    let mut i: usize = from;
    while i < to
        invariant
            from <= i <= to <= chars.len(),
            out@ == chars@.subrange(from as int, i as int),
        decreases to - i,
    {
        out.push(chars[i]);
        i += 1;
        assert(chars@.subrange(from as int, i as int) =~= chars@.subrange(
            from as int,
            i - 1,
        ).push(chars@[i - 1]));
    }
    out
}

/// `a` followed by `b`.
pub fn cat2(a: &str, b: &str) -> (out: String)
    ensures
        out@ == a@ + b@,
{
    let mut out = a.to_owned();
    out.append(b);
    out
}

/// `a`, `b` and `c` one after another.
pub fn cat3(a: &str, b: &str, c: &str) -> (out: String)
    ensures
        out@ == a@ + b@ + c@,
{
    let mut out = a.to_owned();
    out.append(b);
    out.append(c);
    out
}

/// Whether two strings hold the same characters.
pub fn same(a: &str, b: &str) -> (r: bool)
    ensures
        r == (a@ == b@),
{
    let x = to_chars(a);
    let y = to_chars(b);
    if x.len() != y.len() {
        return false;
    }
    let mut i: usize = 0;
    while i < x.len()
        invariant
            i <= x.len(),
            x.len() == y.len(),
            x@ == a@,
            y@ == b@,
            forall|j: int| 0 <= j < i ==> x@[j] == y@[j],
        decreases x.len() - i,
    {
        if x[i] != y[i] {
            return false;
        }
        i += 1;
    }
    assert(x@ =~= y@);
    true
}

/// Whether `s` begins with `prefix`.
pub fn starts_with(s: &str, prefix: &str) -> (r: bool)
    ensures
        r == prefix@.is_prefix_of(s@),
{
    let x = to_chars(s);
    let p = to_chars(prefix);
    chars_start_with(&x, 0, &p)
}

/// Whether `x[at..]` begins with `p`.
pub(crate) fn chars_start_with(x: &Vec<char>, at: usize, p: &Vec<char>) -> (r: bool)
    requires
        at <= x.len(),
    ensures
        r == p@.is_prefix_of(x@.subrange(at as int, x.len() as int)),
{
    let ghost rest = x@.subrange(at as int, x.len() as int);
    if p.len() > x.len() - at {
        return false;
    }
    let mut i: usize = 0;
    while i < p.len()
        invariant
            i <= p.len() <= x.len() - at,
            rest == x@.subrange(at as int, x.len() as int),
            forall|j: int| 0 <= j < i ==> p@[j] == rest[j],
        decreases p.len() - i,
    {
        if x[at + i] != p[i] {
            assert(rest[i as int] != p@[i as int]);
            assert(rest.subrange(0, p.len() as int)[i as int] == rest[i as int]);
            return false;
        }
        i += 1;
    }
    assert(rest.subrange(0, p.len() as int) =~= p@);
    true
}

/// The characters that count as white space: those with the Unicode property
/// `White_Space`.
pub open spec fn is_space(c: char) -> bool {
    let n = c as u32;
    (0x09 <= n <= 0x0d) || n == 0x20 || n == 0x85 || n == 0xa0 || n == 0x1680 || (0x2000 <= n
        <= 0x200a) || n == 0x2028 || n == 0x2029 || n == 0x202f || n == 0x205f || n == 0x3000
}

/// Whether `c` is white space.
pub fn is_whitespace(c: char) -> (r: bool)
    ensures
        r == is_space(c),
{
    let n: u32 = c as u32;
    (0x09 <= n && n <= 0x0d) || n == 0x20 || n == 0x85 || n == 0xa0 || n == 0x1680 || (0x2000 <= n
        && n <= 0x200a) || n == 0x2028 || n == 0x2029 || n == 0x202f || n == 0x205f || n
        == 0x3000
}

/// `s` without its leading white space.
pub open spec fn trim_start_spec(s: Seq<char>) -> Seq<char>
    decreases s.len(),
{
    if s.len() > 0 && is_space(s[0]) {
        trim_start_spec(s.drop_first())
    } else {
        s
    }
}

/// `s` without its trailing white space.
pub open spec fn trim_end_spec(s: Seq<char>) -> Seq<char>
    decreases s.len(),
{
    if s.len() > 0 && is_space(s.last()) {
        trim_end_spec(s.drop_last())
    } else {
        s
    }
}

/// `s` without leading and trailing white space.
pub open spec fn trim_spec(s: Seq<char>) -> Seq<char> {
    trim_end_spec(trim_start_spec(s))
}

/// The bounds of `x[from..to]` once white space is trimmed on both sides.
pub(crate) fn trim_bounds(x: &Vec<char>, from: usize, to: usize) -> (r: (usize, usize))
    requires
        from <= to <= x.len(),
    ensures
        from <= r.0 <= r.1 <= to,
        x@.subrange(r.0 as int, r.1 as int) == trim_spec(x@.subrange(from as int, to as int)),
{
    let mut a: usize = from;
    while a < to && is_whitespace(x[a])
        invariant
            from <= a <= to <= x.len(),
            trim_start_spec(x@.subrange(from as int, to as int)) == trim_start_spec(
                x@.subrange(a as int, to as int),
            ),
        decreases to - a,
    {
        assert(x@.subrange(a as int, to as int).drop_first() =~= x@.subrange(a + 1, to as int));
        a += 1;
    }
    assert(trim_start_spec(x@.subrange(a as int, to as int)) == x@.subrange(a as int, to as int));
    let mut b: usize = to;
    while a < b && is_whitespace(x[b - 1])
        invariant
            a <= b <= to <= x.len(),
            trim_end_spec(x@.subrange(a as int, to as int)) == trim_end_spec(
                x@.subrange(a as int, b as int),
            ),
        decreases b - a,
    {
        assert(x@.subrange(a as int, b as int).drop_last() =~= x@.subrange(a as int, b - 1));
        b -= 1;
    }
    assert(trim_end_spec(x@.subrange(a as int, b as int)) == x@.subrange(a as int, b as int));
    (a, b)
}

/// `s` without leading and trailing white space.
pub fn trim(s: &str) -> (out: String)
    ensures
        out@ == trim_spec(s@),
{
    let x = to_chars(s);
    let (a, b) = trim_bounds(&x, 0, x.len());
    assert(x@.subrange(0, x.len() as int) =~= x@);
    from_chars(&x, a, b)
}

/// `s` with every occurrence of `c` replaced by `with`.
pub open spec fn replace_spec(s: Seq<char>, c: char, with: Seq<char>) -> Seq<char>
    decreases s.len(),
{
    if s.len() == 0 {
        s
    } else if s.last() == c {
        replace_spec(s.drop_last(), c, with) + with
    } else {
        replace_spec(s.drop_last(), c, with).push(s.last())
    }
}

/// `s` with every occurrence of `c` replaced by `with`.
pub fn replace_char(s: &str, c: char, with: &str) -> (out: String)
    ensures
        out@ == replace_spec(s@, c, with@),
{
    let x = to_chars(s);
    let mut out = String::new();
    let mut i: usize = 0;
    while i < x.len()
        invariant
            i <= x.len(),
            out@ == replace_spec(x@.take(i as int), c, with@),
        decreases x.len() - i,
    {
        assert(x@.take(i + 1).drop_last() =~= x@.take(i as int));
        if x[i] == c {
            out.append(with);
        } else {
            out.push(x[i]);
        }
        i += 1;
    }
    assert(x@.take(x.len() as int) =~= x@);
    out
}

/// The index of the first `c` in `s`, or the length of `s` if it holds none.
pub open spec fn first_index(s: Seq<char>, c: char) -> int
    decreases s.len(),
{
    if s.len() == 0 || s[0] == c {
        0
    } else {
        1 + first_index(s.drop_first(), c)
    }
}

proof fn lemma_first_index(s: Seq<char>, c: char, n: int)
    requires
        0 <= n <= s.len(),
        forall|j: int| 0 <= j < n ==> s[j] != c,
        n < s.len() ==> s[n] == c,
    ensures
        first_index(s, c) == n,
    decreases s.len(),
{
    if n > 0 {
        let t = s.drop_first();
        assert forall|j: int| 0 <= j < n - 1 implies t[j] != c by {
            assert(t[j] == s[j + 1]);
        }
        lemma_first_index(t, c, n - 1);
    }
}

/// A line without the carriage return that may end it.
pub open spec fn strip_cr(s: Seq<char>) -> Seq<char> {
    if s.len() > 0 && s.last() == '\r' {
        s.drop_last()
    } else {
        s
    }
}

/// The lines of `s`: it is cut after each line feed; the line feed, and a
/// carriage return just before it, belong to no line; what follows the last
/// line feed is a line if it is not empty.
pub open spec fn lines_spec(s: Seq<char>) -> Seq<Seq<char>>
    decreases s.len(),
{
    if s.len() == 0 {
        Seq::empty()
    } else {
        let n = first_index(s, '\n');
        if n < 0 || n >= s.len() {
            seq![s]
        } else {
            seq![strip_cr(s.subrange(0, n))] + lines_spec(s.subrange(n + 1, s.len() as int))
        }
    }
}

proof fn lemma_first_index_bound(s: Seq<char>, c: char)
    ensures
        0 <= first_index(s, c) <= s.len(),
    decreases s.len(),
{
    if s.len() > 0 && s[0] != c {
        lemma_first_index_bound(s.drop_first(), c);
    }
}

/// The lines of `s`.
pub fn split_lines(s: &str) -> (out: Vec<String>)
    ensures
        strs(out@) == lines_spec(s@),
{
    let x = to_chars(s);
    let mut out: Vec<String> = Vec::new();
    let mut start: usize = 0;
    let mut i: usize = 0;
    let n = x.len();
    assert(x@.subrange(0, n as int) =~= x@);
    assert(strs(out@) + lines_spec(x@) =~= lines_spec(x@));
    while i < n
        invariant
            start <= i <= n,
            n == x.len(),
            forall|j: int| start <= j < i ==> x@[j] != '\n',
            lines_spec(x@) == strs(out@) + lines_spec(x@.subrange(start as int, n as int)),
        decreases n - i,
    {
        if x[i] == '\n' {
            let ghost rest = x@.subrange(start as int, n as int);
            proof {
                assert forall|j: int| 0 <= j < i - start implies rest[j] != '\n' by {
                    assert(rest[j] == x@[start + j]);
                }
                lemma_first_index(rest, '\n', i - start);
                assert(rest.subrange(0, i - start) =~= x@.subrange(start as int, i as int));
                assert(rest.subrange(i - start + 1, rest.len() as int) =~= x@.subrange(
                    i + 1,
                    n as int,
                ));
            }
            let end: usize = if i > start && x[i - 1] == '\r' {
                i - 1
            } else {
                i
            };
            let line = from_chars(&x, start, end);
            proof {
                let whole = x@.subrange(start as int, i as int);
                if i > start && x@[i - 1] == '\r' {
                    assert(whole.drop_last() =~= x@.subrange(start as int, i - 1));
                }
                assert(line@ == strip_cr(whole));
                assert(strs(out@.push(line)) =~= strs(out@).push(line@));
                assert(strs(out@).push(line@) + lines_spec(x@.subrange(i + 1, n as int)) =~= strs(
                    out@,
                ) + (seq![line@] + lines_spec(x@.subrange(i + 1, n as int))));
            }
            out.push(line);
            start = i + 1;
        }
        i += 1;
    }
    if start < n {
        let ghost rest = x@.subrange(start as int, n as int);
        proof {
            assert forall|j: int| 0 <= j < n - start implies rest[j] != '\n' by {
                assert(rest[j] == x@[start + j]);
            }
            lemma_first_index(rest, '\n', n - start);
        }
        let line = from_chars(&x, start, n);
        proof {
            assert(strs(out@.push(line)) =~= strs(out@).push(line@));
            assert(strs(out@).push(line@) =~= strs(out@) + seq![rest]);
        }
        out.push(line);
    } else {
        assert(strs(out@) + Seq::<Seq<char>>::empty() =~= strs(out@));
    }
    out
}

/// The words of `s`: its longest runs of characters that are not white space.
pub open spec fn words_spec(s: Seq<char>) -> Seq<Seq<char>>
    decreases s.len(),
{
    if s.len() == 0 {
        Seq::empty()
    } else if is_space(s[0]) {
        words_spec(s.drop_first())
    } else {
        let n = word_len(s);
        if 0 < n <= s.len() {
            seq![s.subrange(0, n)] + words_spec(s.subrange(n, s.len() as int))
        } else {
            seq![s]
        }
    }
}

/// The number of characters before the first white space of `s`.
pub open spec fn word_len(s: Seq<char>) -> int
    decreases s.len(),
{
    if s.len() == 0 || is_space(s[0]) {
        0
    } else {
        1 + word_len(s.drop_first())
    }
}

proof fn lemma_word_len(s: Seq<char>, n: int)
    requires
        0 <= n <= s.len(),
        forall|j: int| 0 <= j < n ==> !is_space(s[j]),
        n < s.len() ==> is_space(s[n]),
    ensures
        word_len(s) == n,
    decreases s.len(),
{
    if n > 0 {
        let t = s.drop_first();
        assert forall|j: int| 0 <= j < n - 1 implies !is_space(t[j]) by {
            assert(t[j] == s[j + 1]);
        }
        lemma_word_len(t, n - 1);
    }
}

/// The words of `s`.
pub fn split_words(s: &str) -> (out: Vec<String>)
    ensures
        strs(out@) == words_spec(s@),
{
    let x = to_chars(s);
    let n = x.len();
    let mut out: Vec<String> = Vec::new();
    let mut i: usize = 0;
    assert(x@.subrange(0, n as int) =~= x@);
    assert(strs(out@) + words_spec(x@) =~= words_spec(x@));
    while i < n
        invariant
            i <= n,
            n == x.len(),
            words_spec(x@) == strs(out@) + words_spec(x@.subrange(i as int, n as int)),
        decreases n - i,
    {
        let ghost rest = x@.subrange(i as int, n as int);
        if is_whitespace(x[i]) {
            assert(rest.drop_first() =~= x@.subrange(i + 1, n as int));
            i += 1;
        } else {
            let mut j: usize = i + 1;
            while j < n && !is_whitespace(x[j])
                invariant
                    i < j <= n,
                    n == x.len(),
                    forall|k: int| i <= k < j ==> !is_space(x@[k]),
                decreases n - j,
            {
                j += 1;
            }
            let word = from_chars(&x, i, j);
            proof {
                assert forall|k: int| 0 <= k < j - i implies !is_space(rest[k]) by {
                    assert(rest[k] == x@[i + k]);
                }
                lemma_word_len(rest, j - i);
                assert(rest.subrange(0, j - i) =~= x@.subrange(i as int, j as int));
                assert(rest.subrange(j - i, rest.len() as int) =~= x@.subrange(
                    j as int,
                    n as int,
                ));
                assert(strs(out@.push(word)) =~= strs(out@).push(word@));
                assert(strs(out@).push(word@) + words_spec(x@.subrange(j as int, n as int))
                    =~= strs(out@) + (seq![word@] + words_spec(x@.subrange(j as int, n as int))));
            }
            out.push(word);
            i = j;
        }
    }
    assert(x@.subrange(0, n as int) =~= x@);
    assert(strs(out@) + Seq::<Seq<char>>::empty() =~= strs(out@));
    out
}

/// The items of `parts` one after another, with `sep` between each two.
pub open spec fn join_spec(parts: Seq<Seq<char>>, sep: Seq<char>) -> Seq<char>
    decreases parts.len(),
{
    if parts.len() == 0 {
        Seq::empty()
    } else if parts.len() == 1 {
        parts[0]
    } else {
        join_spec(parts.drop_last(), sep) + sep + parts.last()
    }
}

/// The items of `parts` one after another, with `sep` between each two.
pub fn join(parts: &Vec<String>, sep: &str) -> (out: String)
    ensures
        out@ == join_spec(strs(parts@), sep@),
{
    let mut out = String::new();
    let mut i: usize = 0;
    while i < parts.len()
        invariant
            i <= parts.len(),
            out@ == join_spec(strs(parts@).take(i as int), sep@),
        decreases parts.len() - i,
    {
        assert(strs(parts@).take(i + 1).drop_last() =~= strs(parts@).take(i as int));
        if i > 0 {
            out.append(sep);
        }
        out.append(parts[i].as_str());
        i += 1;
    }
    assert(strs(parts@).take(parts.len() as int) =~= strs(parts@));
    out
}

/// A copy of `v`.
pub fn clone_strings(v: &Vec<String>) -> (out: Vec<String>)
    ensures
        strs(out@) == strs(v@),
{
    let mut out: Vec<String> = Vec::new();
    let mut i: usize = 0;
    while i < v.len()
        invariant
            i <= v.len(),
            strs(out@) == strs(v@).take(i as int),
        decreases v.len() - i,
    {
        let item = v[i].clone();
        assert(strs(v@)[i as int] == item@);
        assert(strs(out@.push(item)) =~= strs(out@).push(item@));
        assert(strs(v@).take(i + 1) =~= strs(v@).take(i as int).push(item@));
        out.push(item);
        i += 1;
    }
    assert(strs(v@).take(v.len() as int) =~= strs(v@));
    out
}

/// `s` without the copies of `pat` that it starts with.
pub open spec fn trim_start_matches_spec(s: Seq<char>, pat: Seq<char>) -> Seq<char>
    decreases s.len(),
{
    if pat.len() > 0 && pat.is_prefix_of(s) {
        trim_start_matches_spec(s.subrange(pat.len() as int, s.len() as int), pat)
    } else {
        s
    }
}

/// `s` without the copies of `pat` that it ends with.
pub open spec fn trim_end_matches_spec(s: Seq<char>, pat: Seq<char>) -> Seq<char>
    decreases s.len(),
{
    if pat.len() > 0 && pat.is_suffix_of(s) {
        trim_end_matches_spec(s.subrange(0, s.len() - pat.len()), pat)
    } else {
        s
    }
}

/// Whether `p` stands in `x` at `at`.
fn chars_match_at(x: &Vec<char>, at: usize, p: &Vec<char>) -> (r: bool)
    requires
        at + p.len() <= x.len(),
    ensures
        r == (x@.subrange(at as int, at + p.len()) == p@),
{
    let ghost part = x@.subrange(at as int, at + p.len());
    let mut i: usize = 0;
    while i < p.len()
        invariant
            i <= p.len(),
            at + p.len() <= x.len(),
            part == x@.subrange(at as int, at + p.len()),
            forall|j: int| 0 <= j < i ==> part[j] == p@[j],
        decreases p.len() - i,
    {
        if x[at + i] != p[i] {
            assert(part[i as int] != p@[i as int]);
            return false;
        }
        i += 1;
    }
    assert(part =~= p@);
    true
}

/// `s` without the copies of `head` that it starts with and, of what is
/// left, without the copies of `tail` that it ends with.
pub fn strip_matches(s: &str, head: &str, tail: &str) -> (out: String)
    ensures
        out@ == trim_end_matches_spec(trim_start_matches_spec(s@, head@), tail@),
{
    let x = to_chars(s);
    let h = to_chars(head);
    let t = to_chars(tail);
    let n = x.len();
    let mut a: usize = 0;
    assert(x@.subrange(0, n as int) =~= x@);
    while h.len() > 0 && h.len() <= n - a && chars_match_at(&x, a, &h)
        invariant
            a <= n,
            n == x.len(),
            h@ == head@,
            trim_start_matches_spec(x@, h@) == trim_start_matches_spec(
                x@.subrange(a as int, n as int),
                h@,
            ),
        decreases n - a,
    {
        proof {
            let rest = x@.subrange(a as int, n as int);
            assert(rest.subrange(0, h.len() as int) =~= x@.subrange(a as int, a + h.len()));
            assert(rest.subrange(h.len() as int, rest.len() as int) =~= x@.subrange(
                a + h.len(),
                n as int,
            ));
        }
        a += h.len();
    }
    proof {
        let rest = x@.subrange(a as int, n as int);
        if h.len() > 0 && h.len() <= n - a {
            assert(rest.subrange(0, h.len() as int) =~= x@.subrange(a as int, a + h.len()));
        }
        assert(trim_start_matches_spec(rest, h@) == rest);
    }
    let mut e: usize = n;
    while t.len() > 0 && t.len() <= e - a && chars_match_at(&x, e - t.len(), &t)
        invariant
            a <= e <= n,
            n == x.len(),
            trim_end_matches_spec(x@.subrange(a as int, n as int), t@) == trim_end_matches_spec(
                x@.subrange(a as int, e as int),
                t@,
            ),
        decreases e - a,
    {
        proof {
            let rest = x@.subrange(a as int, e as int);
            assert(rest.subrange(rest.len() - t.len(), rest.len() as int) =~= x@.subrange(
                e - t.len(),
                e as int,
            ));
            assert(rest.subrange(0, rest.len() - t.len()) =~= x@.subrange(
                a as int,
                e - t.len(),
            ));
        }
        e -= t.len();
    }
    proof {
        let rest = x@.subrange(a as int, e as int);
        if t.len() > 0 && t.len() <= e - a {
            assert(rest.subrange(rest.len() - t.len(), rest.len() as int) =~= x@.subrange(
                e - t.len(),
                e as int,
            ));
        }
        assert(trim_end_matches_spec(rest, t@) == rest);
    }
    from_chars(&x, a, e)
}

} // verus!
