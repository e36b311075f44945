//! Character-level text primitives: substring search, prefix trimming and
//! line splitting, each stated over `Seq<char>`.
use vstd::prelude::*;
use vstd::std_specs::iter::IteratorSpec;
use vstd::string::*;

verus! {

broadcast use vstd::string::group_string_axioms;

/// `p` occurs in `s` starting at position `i`.
pub open spec fn occurs_at(s: Seq<char>, p: Seq<char>, i: int) -> bool {
    0 <= i && i + p.len() <= s.len() && s.subrange(i, i + p.len()) == p
}

/// `p` occurs somewhere in `s` (the empty pattern occurs in every text).
pub open spec fn contains(s: Seq<char>, p: Seq<char>) -> bool {
    exists|i: int| occurs_at(s, p, i)
}

/// `s` with every leading copy of a non-empty `p` removed; an empty `p`
/// removes nothing.
pub open spec fn trim_prefix_all(s: Seq<char>, p: Seq<char>) -> Seq<char>
    decreases s.len(),
{
    if p.len() > 0 && p.len() <= s.len() && s.subrange(0, p.len() as int) == p {
        trim_prefix_all(s.subrange(p.len() as int, s.len() as int), p)
    } else {
        s
    }
}

/// Position of the first line feed at or after `i`, or the length of `s`.
pub open spec fn next_newline(s: Seq<char>, i: int) -> int
    decreases s.len() - i,
{
    if i >= s.len() {
        s.len() as int
    } else if s[i] == '\n' {
        i
    } else {
        next_newline(s, i + 1)
    }
}

/// The text of the line that spans `s[i..k]`, where `k` is a line feed or the
/// end: a carriage return just before the line feed belongs to the line break.
pub open spec fn line_text(s: Seq<char>, i: int, k: int) -> Seq<char> {
    if i < k && k < s.len() && s[k - 1] == '\r' {
        s.subrange(i, k - 1)
    } else {
        s.subrange(i, k)
    }
}

/// The lines of `s` from position `i` on.
pub open spec fn lines_from(s: Seq<char>, i: int) -> Seq<Seq<char>>
    decreases s.len() - i,
{
    if i < 0 || i >= s.len() {
        seq![]
    } else {
        let k = next_newline(s, i);
        proof {
            lemma_next_newline_bounds(s, i);
        }
        if k < s.len() {
            seq![line_text(s, i, k)] + lines_from(s, k + 1)
        } else {
            seq![line_text(s, i, k)]
        }
    }
}

/// The lines of a text: split at each line feed, with no empty line after a
/// final line feed and none at all for the empty text.
pub open spec fn lines_of(s: Seq<char>) -> Seq<Seq<char>> {
    lines_from(s, 0)
}

pub proof fn lemma_next_newline_bounds(s: Seq<char>, i: int)
    requires
        0 <= i <= s.len(),
    ensures
        i <= next_newline(s, i) <= s.len(),
        next_newline(s, i) < s.len() ==> s[next_newline(s, i)] == '\n',
    decreases s.len() - i,
{
    if i < s.len() && s[i] != '\n' {
        lemma_next_newline_bounds(s, i + 1);
    }
}

/// Relies on `String::push`: appends one character.
#[verifier::external_body]
fn push_char(s: &mut String, c: char)
    ensures
        final(s)@ == old(s)@.push(c),
{
    s.push(c);
}

/// The characters of `s`, in order.
pub fn chars_of(s: &str) -> (r: Vec<char>)
    ensures
        r@ == s@,
{
    let mut r: Vec<char> = Vec::new();
    for c in it: s.chars()
        invariant
            r@ == it.seq().take(it.index() as int),
            it.seq() == s@,
    {
        r.push(c);
    }
    r
}

/// The text made of `s[lo..hi]`.
pub fn string_of(s: &[char], lo: usize, hi: usize) -> (r: String)
    requires
        lo <= hi <= s@.len(),
    ensures
        r@ == s@.subrange(lo as int, hi as int),
{
    let mut r = String::new();
    let mut i = lo;
    while i < hi
        invariant
            lo <= i <= hi <= s@.len(),
            r@ == s@.subrange(lo as int, i as int),
        decreases hi - i,
    {
        push_char(&mut r, s[i]);
        assert(s@.subrange(lo as int, i + 1) =~= s@.subrange(lo as int, i as int).push(s@[i as int]));
        i += 1;
    }
    r
}

/// Whether `p` occurs in `s` at position `i`.
pub fn occurs_at_exec(s: &[char], p: &[char], i: usize) -> (r: bool)
    ensures
        r == occurs_at(s@, p@, i as int),
{
    if i > s.len() || p.len() > s.len() - i {
        return false;
    }
    let n = s.len();
    let mut k: usize = 0;
    while k < p.len()
        invariant
            n == s@.len(),
            i + p@.len() <= s@.len(),
            k <= p@.len(),
            forall|j: int| 0 <= j < k ==> s@[i + j] == p@[j],
        decreases p@.len() - k,
    {
        if s[i + k] != p[k] {
            assert(s@.subrange(i as int, i + p@.len())[k as int] != p@[k as int]);
            return false;
        }
        k += 1;
    }
    assert(s@.subrange(i as int, i + p@.len()) =~= p@);
    true
}

/// Whether `p` occurs in `s`.
pub fn contains_exec(s: &[char], p: &[char]) -> (r: bool)
    ensures
        r == contains(s@, p@),
{
    if p.len() > s.len() {
        assert(forall|i: int| !occurs_at(s@, p@, i));
        return false;
    }
    let last = s.len() - p.len();
    let mut i: usize = 0;
    loop
        invariant
            p@.len() <= s@.len(),
            last == s@.len() - p@.len(),
            i <= last,
            forall|j: int| 0 <= j < i ==> !occurs_at(s@, p@, j),
        ensures
            forall|j: int| 0 <= j <= last ==> !occurs_at(s@, p@, j),
        decreases last - i,
    {
        if occurs_at_exec(s, p, i) {
            return true;
        }
        if i == last {
            break;
        }
        i += 1;
    }
    assert(forall|j: int| !occurs_at(s@, p@, j));
    false
}

/// Whether the text `s` contains the text `p`.
pub fn str_contains(s: &str, p: &str) -> (r: bool)
    ensures
        r == contains(s@, p@),
{
    let sc = chars_of(s);
    let pc = chars_of(p);
    contains_exec(sc.as_slice(), pc.as_slice())
}

/// Index where `trim_prefix_all(s[lo..], p)` starts.
pub fn trim_prefix_start(s: &[char], lo: usize, p: &[char]) -> (r: usize)
    requires
        lo <= s@.len(),
    ensures
        lo <= r <= s@.len(),
        trim_prefix_all(s@.subrange(lo as int, s@.len() as int), p@) == s@.subrange(
            r as int,
            s@.len() as int,
        ),
{
    let mut i = lo;
    if p.len() == 0 {
        return i;
    }
    while i <= s.len() && occurs_at_exec(s, p, i)
        invariant
            lo <= i <= s@.len(),
            p@.len() > 0,
            trim_prefix_all(s@.subrange(lo as int, s@.len() as int), p@) == trim_prefix_all(
                s@.subrange(i as int, s@.len() as int),
                p@,
            ),
        decreases s@.len() - i,
    {
        let ghost t = s@.subrange(i as int, s@.len() as int);
        assert(t.subrange(0, p@.len() as int) =~= p@);
        assert(t.subrange(p@.len() as int, t.len() as int) =~= s@.subrange(
            i + p@.len(),
            s@.len() as int,
        ));
        i = i + p.len();
    }
    let ghost t = s@.subrange(i as int, s@.len() as int);
    assert(!(p@.len() <= t.len() && t.subrange(0, p@.len() as int) == p@)) by {
        if p@.len() <= t.len() && t.subrange(0, p@.len() as int) == p@ {
            assert(s@.subrange(i as int, i + p@.len()) =~= t.subrange(0, p@.len() as int));
        }
    }
    i
}

/// Position of the first line feed at or after `i`, or the length of `s`.
pub fn next_newline_exec(s: &[char], i: usize) -> (r: usize)
    requires
        i <= s@.len(),
    ensures
        r as int == next_newline(s@, i as int),
{
    let mut j = i;
    while j < s.len() && s[j] != '\n'
        invariant
            i <= j <= s@.len(),
            next_newline(s@, i as int) == next_newline(s@, j as int),
        decreases s@.len() - j,
    {
        j += 1;
    }
    j
}

/// The lines of `s`, each as the range `(start, end)` of its text.
pub fn line_ranges(s: &[char]) -> (r: Vec<(usize, usize)>)
    ensures
        r@.len() == lines_of(s@).len(),
        forall|j: int|
            0 <= j < r@.len() ==> {
                &&& (#[trigger] r@[j]).0 <= r@[j].1 <= s@.len()
                &&& s@.subrange(r@[j].0 as int, r@[j].1 as int) == lines_of(s@)[j]
            },
{
    let mut r: Vec<(usize, usize)> = Vec::new();
    let mut i: usize = 0;
    while i < s.len()
        invariant
            i <= s@.len(),
            lines_of(s@) == r@.map_values(
                |p: (usize, usize)| s@.subrange(p.0 as int, p.1 as int),
            ) + lines_from(s@, i as int),
            forall|j: int| 0 <= j < r@.len() ==> (#[trigger] r@[j]).0 <= r@[j].1 <= s@.len(),
        decreases s@.len() - i,
    {
        let k = next_newline_exec(s, i);
        proof {
            lemma_next_newline_bounds(s@, i as int);
        }
        let end = if i < k && k < s.len() && s[k - 1] == '\r' {
            k - 1
        } else {
            k
        };
        let ghost before = r@;
        r.push((i, end));
        assert(r@.map_values(|p: (usize, usize)| s@.subrange(p.0 as int, p.1 as int))
            =~= before.map_values(|p: (usize, usize)| s@.subrange(p.0 as int, p.1 as int)).push(
            line_text(s@, i as int, k as int),
        ));
        if k < s.len() {
            assert(lines_from(s@, i as int) == seq![line_text(s@, i as int, k as int)]
                + lines_from(s@, k + 1));
            i = k + 1;
        } else {
            assert(lines_from(s@, i as int) == seq![line_text(s@, i as int, k as int)]);
            assert(lines_from(s@, k as int) == Seq::<Seq<char>>::empty());
            i = k;
        }
        assert(lines_of(s@) == r@.map_values(
            |p: (usize, usize)| s@.subrange(p.0 as int, p.1 as int),
        ) + lines_from(s@, i as int));
    }
    assert(lines_from(s@, i as int) == Seq::<Seq<char>>::empty());
    assert(lines_of(s@) =~= r@.map_values(
        |p: (usize, usize)| s@.subrange(p.0 as int, p.1 as int),
    ));
    assert forall|j: int| 0 <= j < r@.len() implies s@.subrange(r@[j].0 as int, r@[j].1 as int)
        == lines_of(s@)[j] by {}
    r
}

/// Whether two texts are the same.
pub fn same_text(a: &str, b: &str) -> (r: bool)
    ensures
        r == (a@ == b@),
{
    let x = chars_of(a);
    let y = chars_of(b);
    if x.len() != y.len() {
        return false;
    }
    let mut i: usize = 0;
    while i < x.len()
        invariant
            x@ == a@,
            y@ == b@,
            x@.len() == y@.len(),
            i <= x@.len(),
            forall|k: int| 0 <= k < i ==> x@[k] == y@[k],
        decreases x@.len() - i,
    {
        if x[i] != y[i] {
            return false;
        }
        i += 1;
    }
    assert(x@ =~= y@);
    true
}

} // verus!
