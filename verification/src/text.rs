//! Text primitives over character sequences.
//!
//! Every name, path and URL template handled by this crate is a `String`;
//! its mathematical model is the `Seq<char>` that `@` gives. The functions
//! here are the few operations on such sequences that the rest of the crate
//! is built from, each with a specification stated on the model.

use crate::outside::push_char;
use vstd::prelude::*;

verus! {

/// `pat` occurs in `s` at position `at`.
pub open spec fn occurs_at(s: Seq<char>, pat: Seq<char>, at: int) -> bool {
    &&& 0 <= at
    &&& at + pat.len() <= s.len()
    &&& s.subrange(at, at + pat.len()) == pat
}

/// `pat` occurs somewhere in `s`.
pub open spec fn contains(s: Seq<char>, pat: Seq<char>) -> bool {
    exists|at: int| occurs_at(s, pat, at)
}

/// `s` begins with `pat`.
pub open spec fn starts_with(s: Seq<char>, pat: Seq<char>) -> bool {
    occurs_at(s, pat, 0)
}

/// `s` ends with `pat`.
pub open spec fn ends_with(s: Seq<char>, pat: Seq<char>) -> bool {
    occurs_at(s, pat, s.len() - pat.len())
}

/// `c` is one of the characters of `s`.
pub open spec fn has_char(s: Seq<char>, c: char) -> bool {
    exists|i: int| 0 <= i < s.len() && s[i] == c
}

/// The pieces of `s` between occurrences of `sep`, in order. There is always
/// at least one piece; a separator at either end, or two in a row, give an
/// empty piece.
pub open spec fn split(s: Seq<char>, sep: char) -> Seq<Seq<char>>
    decreases s.len(),
{
    if s.len() == 0 {
        seq![Seq::empty()]
    } else {
        let before = split(s.drop_last(), sep);
        if s.last() == sep {
            before.push(Seq::empty())
        } else {
            before.drop_last().push(before.last().push(s.last()))
        }
    }
}

/// The pieces of `parts` written one after another with `sep` between each
/// two neighbours.
pub open spec fn join(parts: Seq<Seq<char>>, sep: Seq<char>) -> Seq<char>
    decreases parts.len(),
{
    if parts.len() == 0 {
        Seq::empty()
    } else if parts.len() == 1 {
        parts[0]
    } else {
        join(parts.drop_last(), sep) + sep + parts.last()
    }
}

/// `a`, a dot, then `b`.
pub open spec fn dotted(a: Seq<char>, b: Seq<char>) -> Seq<char> {
    a + seq!['.'] + b
}

/// `suffix` ends `path` and begins at a label boundary of it: at the very
/// start, or right after a dot.
pub open spec fn is_dot_suffix(path: Seq<char>, suffix: Seq<char>) -> bool {
    &&& ends_with(path, suffix)
    &&& (suffix.len() == path.len() || path[path.len() - suffix.len() - 1] == '.')
}

/// The part of `s` before its first `sep`, and the part after it; `None`
/// when `sep` does not occur.
pub open spec fn split_once(s: Seq<char>, sep: char) -> Option<(Seq<char>, Seq<char>)> {
    if has_char(s, sep) {
        let at = first_index(s, sep);
        Some((s.subrange(0, at), s.subrange(at + 1, s.len() as int)))
    } else {
        None
    }
}

/// The least index at which `c` stands in `s`, or the length of `s` when it
/// stands nowhere.
pub open spec fn first_index(s: Seq<char>, c: char) -> int
    decreases s.len(),
{
    if s.len() == 0 {
        0
    } else if s[0] == c {
        0
    } else {
        1 + first_index(s.drop_first(), c)
    }
}

/// The first index is the least at which the character stands, and is an
/// index of the string exactly when the string has the character.
pub proof fn lemma_first_index(s: Seq<char>, c: char)
    ensures
        0 <= first_index(s, c) <= s.len(),
        forall|i: int| 0 <= i < first_index(s, c) ==> s[i] != c,
        first_index(s, c) < s.len() ==> s[first_index(s, c)] == c,
        has_char(s, c) <==> first_index(s, c) < s.len(),
    decreases s.len(),
{
    if s.len() == 0 {
    } else if s[0] == c {
    } else {
        let t = s.drop_first();
        lemma_first_index(t, c);
        assert forall|i: int| 0 <= i < first_index(s, c) implies s[i] != c by {
            if i > 0 {
                assert(t[i - 1] == s[i]);
            }
        }
        if first_index(s, c) < s.len() {
            assert(t[first_index(t, c)] == s[first_index(s, c)]);
        }
        if has_char(s, c) {
            let i = choose|i: int| 0 <= i < s.len() && s[i] == c;
            assert(t[i - 1] == c);
        }
    }
}

/// Cutting a string leaves at least one piece, no piece has the separator,
/// and the pieces joined by the separator are the string.
pub proof fn lemma_split_join(s: Seq<char>, sep: char)
    ensures
        split(s, sep).len() >= 1,
        forall|k: int| 0 <= k < split(s, sep).len() ==> !has_char(#[trigger] split(s, sep)[k], sep),
        join(split(s, sep), seq![sep]) == s,
    decreases s.len(),
{
    if s.len() == 0 {
        assert(join(split(s, sep), seq![sep]) =~= s);
    } else {
        let t = s.drop_last();
        let c = s.last();
        let before = split(t, sep);
        lemma_split_join(t, sep);
        assert(t.push(c) =~= s);
        if c == sep {
            let pieces = before.push(Seq::empty());
            assert(pieces.drop_last() =~= before);
            assert(join(pieces, seq![sep]) =~= s);
        } else {
            let grown = before.last().push(c);
            let pieces = before.drop_last().push(grown);
            assert(!has_char(grown, sep)) by {
                if has_char(grown, sep) {
                    let i = choose|i: int| 0 <= i < grown.len() && grown[i] == sep;
                    assert(before.last()[i] == sep);
                }
            }
            assert(pieces.drop_last() =~= before.drop_last());
            if before.len() == 1 {
                assert(before.last() =~= join(before, seq![sep]));
                assert(join(pieces, seq![sep]) =~= s);
            } else {
                assert(join(pieces, seq![sep]) =~= join(before, seq![sep]).push(c));
            }
        }
    }
}

/// `s` with every occurrence of `pat` replaced by `with`, the occurrences
/// taken from left to right and none overlapping another. An empty `pat`
/// occurs nowhere.
pub open spec fn replaced(s: Seq<char>, pat: Seq<char>, with: Seq<char>) -> Seq<char>
    decreases s.len(),
{
    if pat.len() == 0 || s.len() < pat.len() {
        s
    } else if occurs_at(s, pat, 0) {
        with + replaced(s.subrange(pat.len() as int, s.len() as int), pat, with)
    } else {
        seq![s[0]] + replaced(s.drop_first(), pat, with)
    }
}

/// `a` comes before `b`, or is `b`, in the order of strings: that of the
/// first character in which they differ, and a string before every longer
/// one that begins with it.
pub open spec fn chars_le(a: Seq<char>, b: Seq<char>) -> bool
    decreases a.len(),
{
    if a.len() == 0 {
        true
    } else if b.len() == 0 {
        false
    } else if a[0] != b[0] {
        (a[0] as u32) < (b[0] as u32)
    } else {
        chars_le(a.drop_first(), b.drop_first())
    }
}

/// `a` comes before `b`, or is `b`, in the order of lists of strings: that
/// of the first string in which they differ, and a list before every
/// longer one that begins with it.
pub open spec fn strings_le(a: Seq<Seq<char>>, b: Seq<Seq<char>>) -> bool
    decreases a.len(),
{
    if a.len() == 0 {
        true
    } else if b.len() == 0 {
        false
    } else if a[0] != b[0] {
        chars_le(a[0], b[0])
    } else {
        strings_le(a.drop_first(), b.drop_first())
    }
}

/// The first `n` items, each on a line of its own, after a dash.
pub open spec fn dashed_lines(items: Seq<Seq<char>>, n: nat) -> Seq<char>
    decreases n,
{
    if n == 0 || n > items.len() {
        Seq::empty()
    } else {
        dashed_lines(items, (n - 1) as nat) + ("- "@ + items[n - 1] + "\n"@)
    }
}

/// The characters of a string slice, as a vector.
pub fn to_chars(s: &str) -> (v: Vec<char>)
    ensures
        v@ == s@,
{
    let mut v: Vec<char> = Vec::new();
    for c in it: s.chars()
        invariant
            it.seq() == s@,
            v@ == s@.subrange(0, it.index() as int),
    {
        v.push(c);
        assert(v@ == s@.subrange(0, it.index() + 1));
    }
    assert(s@.subrange(0, s@.len() as int) == s@);
    v
}

/// The string made of the characters `v[from..to]`.
pub fn from_chars(v: &Vec<char>, from: usize, to: usize) -> (s: String)
    requires
        from <= to <= v.len(),
    ensures
        s@ == v@.subrange(from as int, to as int),
{
    let mut s = String::new();
    let mut i: usize = from;
    while i < to
        invariant
            from <= i <= to <= v.len(),
            s@ == v@.subrange(from as int, i as int),
        decreases to - i,
    {
        push_char(&mut s, v[i]);
        i += 1;
        assert(s@ == v@.subrange(from as int, i as int));
    }
    s
}

fn chars_occur_at(s: &Vec<char>, pat: &Vec<char>, at: usize) -> (r: bool)
    requires
        at + pat.len() <= s.len(),
    ensures
        r == occurs_at(s@, pat@, at as int),
{
    let mut j: usize = 0;
    while j < pat.len()
        invariant
            j <= pat.len(),
            at + pat.len() <= s.len(),
            forall|k: int| 0 <= k < j ==> s@[at + k] == pat@[k],
        decreases pat.len() - j,
    {
        if s[at + j] != pat[j] {
            assert(s@.subrange(at as int, at + pat.len())[j as int] == s@[at + j]);
            return false;
        }
        j += 1;
    }
    assert(s@.subrange(at as int, at + pat.len()) =~= pat@);
    true
}

/// Whether two string slices hold the same characters.
pub fn same(a: &str, b: &str) -> (r: bool)
    ensures
        r == (a@ == b@),
{
    let x = to_chars(a);
    let y = to_chars(b);
    if x.len() != y.len() {
        return false;
    }
    let r = chars_occur_at(&x, &y, 0);
    assert(x@.subrange(0, x@.len() as int) == x@);
    r
}

/// Whether two optional strings are both absent or hold the same characters.
pub fn same_opt(a: &Option<String>, b: &Option<String>) -> (r: bool)
    ensures
        r == (a.deep_view() == b.deep_view()),
{
    match (a, b) {
        (Some(x), Some(y)) => *x == *y,
        (None, None) => true,
        _ => false,
    }
}

/// Whether `s` begins with `pat`.
pub fn begins_with(s: &str, pat: &str) -> (r: bool)
    ensures
        r == starts_with(s@, pat@),
{
    let x = to_chars(s);
    let y = to_chars(pat);
    if y.len() > x.len() {
        return false;
    }
    chars_occur_at(&x, &y, 0)
}

/// Whether `s` ends with `pat`.
pub fn finishes_with(s: &str, pat: &str) -> (r: bool)
    ensures
        r == ends_with(s@, pat@),
{
    let x = to_chars(s);
    let y = to_chars(pat);
    if y.len() > x.len() {
        return false;
    }
    chars_occur_at(&x, &y, x.len() - y.len())
}

/// Whether `pat` occurs in `s`.
pub fn includes(s: &str, pat: &str) -> (r: bool)
    ensures
        r == contains(s@, pat@),
{
    let x = to_chars(s);
    let y = to_chars(pat);
    if y.len() > x.len() {
        return false;
    }
    let last: usize = x.len() - y.len();
    let mut at: usize = 0;
    loop
        invariant
            x@ == s@,
            y@ == pat@,
            last == x.len() - y.len(),
            at <= last,
            forall|k: int| 0 <= k < at ==> !occurs_at(x@, y@, k),
        decreases last - at,
    {
        if chars_occur_at(&x, &y, at) {
            return true;
        }
        if at == last {
            return false;
        }
        at += 1;
    }
}

/// Whether the character `c` occurs in `s`.
pub fn includes_char(s: &str, c: char) -> (r: bool)
    ensures
        r == has_char(s@, c),
{
    let x = to_chars(s);
    let mut i: usize = 0;
    while i < x.len()
        invariant
            x@ == s@,
            i <= x.len(),
            forall|k: int| 0 <= k < i ==> x@[k] != c,
        decreases x.len() - i,
    {
        if x[i] == c {
            return true;
        }
        i += 1;
    }
    false
}

/// Whether `suffix` ends `path` at a label boundary.
pub fn has_dot_suffix(path: &str, suffix: &str) -> (r: bool)
    ensures
        r == is_dot_suffix(path@, suffix@),
{
    let x = to_chars(path);
    let y = to_chars(suffix);
    if y.len() > x.len() {
        return false;
    }
    let at: usize = x.len() - y.len();
    if !chars_occur_at(&x, &y, at) {
        return false;
    }
    at == 0 || x[at - 1] == '.'
}

/// Cuts `s` at every `sep`.
pub fn split_on(s: &str, sep: char) -> (pieces: Vec<String>)
    ensures
        pieces.deep_view() == split(s@, sep),
{
    let x = to_chars(s);
    let mut pieces: Vec<String> = Vec::new();
    let mut start: usize = 0;
    let mut i: usize = 0;
    assert(x@.subrange(0, 0) =~= Seq::<char>::empty());
    assert(pieces.deep_view() =~= Seq::<Seq<char>>::empty());
    assert(split(x@.subrange(0, 0), sep) =~= pieces.deep_view().push(x@.subrange(0, 0)));
    while i < x.len()
        invariant
            x@ == s@,
            start <= i <= x.len(),
            split(x@.subrange(0, i as int), sep) == pieces.deep_view().push(
                x@.subrange(start as int, i as int),
            ),
        decreases x.len() - i,
    {
        let ghost before = split(x@.subrange(0, i as int), sep);
        let ghost done = pieces.deep_view();
        proof {
            let t = x@.subrange(0, i + 1);
            assert(t.drop_last() =~= x@.subrange(0, i as int));
            assert(t.last() == x@[i as int]);
            assert(before.last() == x@.subrange(start as int, i as int));
            assert(before.drop_last() =~= done);
        }
        if x[i] == sep {
            let piece = from_chars(&x, start, i);
            pieces.push(piece);
            start = i + 1;
            proof {
                assert(pieces.deep_view() =~= done.push(piece@));
                assert(x@.subrange(start as int, i + 1) =~= Seq::<char>::empty());
            }
        } else {
            proof {
                assert(x@.subrange(start as int, i as int).push(x@[i as int]) =~= x@.subrange(
                    start as int,
                    i + 1,
                ));
            }
        }
        i += 1;
    }
    assert(x@.subrange(0, x.len() as int) == x@);
    let piece = from_chars(&x, start, i);
    let ghost done = pieces.deep_view();
    pieces.push(piece);
    assert(pieces.deep_view() =~= done.push(piece@));
    pieces
}

/// Writes the strings of `parts` one after another with `sep` between them.
pub fn join_with(parts: &Vec<String>, sep: &str) -> (s: String)
    ensures
        s@ == join(parts.deep_view(), sep@),
{
    let mut s = String::new();
    let mut i: usize = 0;
    assert(parts.deep_view().subrange(0, 0) =~= Seq::<Seq<char>>::empty());
    while i < parts.len()
        invariant
            i <= parts.len(),
            s@ == join(parts.deep_view().subrange(0, i as int), sep@),
        decreases parts.len() - i,
    {
        proof {
            let t = parts.deep_view().subrange(0, i + 1);
            assert(t.drop_last() =~= parts.deep_view().subrange(0, i as int));
            assert(t.last() == parts@[i as int]@);
        }
        if i > 0 {
            s.append(sep);
        }
        s.append(parts[i].as_str());
        i += 1;
        assert(s@ =~= join(parts.deep_view().subrange(0, i as int), sep@));
    }
    assert(parts.deep_view().subrange(0, parts.len() as int) =~= parts.deep_view());
    s
}

/// `a`, a dot, then `b`, as a new string.
pub fn dot_join(a: &str, b: &str) -> (s: String)
    ensures
        s@ == dotted(a@, b@),
{
    let mut s = a.to_owned();
    push_char(&mut s, '.');
    s.append(b);
    assert(s@ =~= dotted(a@, b@));
    s
}

/// Cuts `s` at its first `sep`, if it has one.
pub fn cut_once(s: &str, sep: char) -> (r: Option<(String, String)>)
    ensures
        r.deep_view() == split_once(s@, sep),
{
    let x = to_chars(s);
    let mut i: usize = 0;
    proof {
        lemma_first_index(x@, sep);
    }
    while i < x.len()
        invariant
            x@ == s@,
            i <= x.len(),
            forall|k: int| 0 <= k < i ==> x@[k] != sep,
        decreases x.len() - i,
    {
        if x[i] == sep {
            let left = from_chars(&x, 0, i);
            let right = from_chars(&x, i + 1, x.len());
            proof {
                lemma_first_index(x@, sep);
                assert(first_index(x@, sep) == i);
            }
            return Some((left, right));
        }
        i += 1;
    }
    None
}

/// A copy of a vector of strings.
pub fn copy_strings(v: &Vec<String>) -> (r: Vec<String>)
    ensures
        r.deep_view() == v.deep_view(),
{
    let mut r: Vec<String> = Vec::new();
    let mut i: usize = 0;
    while i < v.len()
        invariant
            i <= v.len(),
            r@.len() == i,
            forall|j: int| 0 <= j < i ==> r@[j]@ == v@[j]@,
        decreases v.len() - i,
    {
        r.push(v[i].clone());
        i += 1;
    }
    assert(r.deep_view() =~= v.deep_view());
    r
}

/// A copy of an optional string.
pub fn copy_opt(s: &Option<String>) -> (r: Option<String>)
    ensures
        r.deep_view() == s.deep_view(),
{
    match s {
        Some(x) => Some(x.clone()),
        None => None,
    }
}

/// Whether `s` is one of the strings of `v`.
pub fn has_string(v: &Vec<String>, s: &str) -> (r: bool)
    ensures
        r == v.deep_view().contains(s@),
{
    let mut i: usize = 0;
    while i < v.len()
        invariant
            i <= v.len(),
            forall|k: int| 0 <= k < i ==> v.deep_view()[k] != s@,
        decreases v.len() - i,
    {
        assert(v.deep_view()[i as int] == v@[i as int]@);
        if same(v[i].as_str(), s) {
            return true;
        }
        i += 1;
    }
    false
}

/// Replaces every occurrence of `pat` in `s` by `with`.
pub fn replace_all(s: &str, pat: &str, with: &str) -> (r: String)
    ensures
        r@ == replaced(s@, pat@, with@),
{
    let x = to_chars(s);
    let y = to_chars(pat);
    if y.len() == 0 || x.len() < y.len() {
        return s.to_owned();
    }
    let mut out = String::new();
    let mut i: usize = 0;
    assert(x@.subrange(0, x@.len() as int) =~= x@);
    while i < x.len()
        invariant
            x@ == s@,
            y@ == pat@,
            y.len() > 0,
            i <= x.len(),
            replaced(s@, pat@, with@) == out@ + replaced(
                x@.subrange(i as int, x@.len() as int),
                pat@,
                with@,
            ),
        decreases x.len() - i,
    {
        let ghost rest = x@.subrange(i as int, x@.len() as int);
        if x.len() - i >= y.len() && chars_occur_at(&x, &y, i) {
            proof {
                assert(rest.subrange(0, y@.len() as int) =~= x@.subrange(i as int, i + y@.len()));
                assert(occurs_at(rest, pat@, 0));
                assert(rest.subrange(y@.len() as int, rest.len() as int) =~= x@.subrange(
                    i + y@.len(),
                    x@.len() as int,
                ));
            }
            out.append(with);
            i += y.len();
            assert(replaced(s@, pat@, with@) =~= out@ + replaced(
                x@.subrange(i as int, x@.len() as int),
                pat@,
                with@,
            ));
        } else {
            proof {
                if rest.len() >= y@.len() {
                    assert(rest.subrange(0, y@.len() as int) =~= x@.subrange(
                        i as int,
                        i + y@.len(),
                    ));
                    assert(!occurs_at(rest, pat@, 0));
                }
                assert(rest.drop_first() =~= x@.subrange(i + 1, x@.len() as int));
                assert(rest[0] == x@[i as int]);
            }
            if x.len() - i < y.len() {
                let tail = from_chars(&x, i, x.len());
                out.append(tail.as_str());
                proof {
                    assert(replaced(rest, pat@, with@) == rest);
                    assert(x@.subrange(x@.len() as int, x@.len() as int) =~= Seq::<char>::empty());
                    assert(replaced(s@, pat@, with@) =~= out@ + replaced(
                        x@.subrange(x@.len() as int, x@.len() as int),
                        pat@,
                        with@,
                    ));
                }
                i = x.len();
            } else {
                push_char(&mut out, x[i]);
                i += 1;
                assert(replaced(s@, pat@, with@) =~= out@ + replaced(
                    x@.subrange(i as int, x@.len() as int),
                    pat@,
                    with@,
                ));
            }
        }
    }
    assert(x@.subrange(x@.len() as int, x@.len() as int) =~= Seq::<char>::empty());
    assert(replaced(s@, pat@, with@) =~= out@);
    out
}

/// `{`, then `name`, then `}`, as a new string.
pub fn braced(name: &str) -> (r: String)
    ensures
        r@ == seq!['{'] + name@ + seq!['}'],
{
    let mut r = String::new();
    push_char(&mut r, '{');
    r.append(name);
    push_char(&mut r, '}');
    assert(r@ =~= seq!['{'] + name@ + seq!['}']);
    r
}

/// `a` followed by `b`, as a new string.
pub fn glue(a: &str, b: &str) -> (r: String)
    ensures
        r@ == a@ + b@,
{
    let mut r = a.to_owned();
    r.append(b);
    r
}

/// Writes the items, each on a line of its own, after a dash.
pub fn write_dashed_lines(items: &Vec<&str>) -> (r: String)
    ensures
        r@ == dashed_lines(items.deep_view(), items.len() as nat),
{
    let ghost listed = items.deep_view();
    let mut lines = String::new();
    let mut k: usize = 0;
    while k < items.len()
        invariant
            k <= items.len(),
            listed == items.deep_view(),
            lines@ == dashed_lines(listed, k as nat),
        decreases items.len() - k,
    {
        let ghost had = lines@;
        assert(listed[k as int] == items@[k as int]@);
        lines.append("- ");
        lines.append(items[k]);
        lines.append("\n");
        assert(lines@ =~= had + ("- "@ + listed[k as int] + "\n"@));
        k += 1;
    }
    lines
}

} // verus!
