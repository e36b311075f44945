//! Shell completion: what to offer for the word under the cursor, and how the
//! package manager's package lists turn into suggestions.
use crate::commands::{option_named, CommandHelper, CommandOptions};
use crate::classify::sub_chars;
use crate::text::{chars_of, contains, contains_exec, line_ranges, lines_of, string_of};
use vstd::prelude::*;
use vstd::string::*;

verus! {

broadcast use vstd::string::group_string_axioms;

/// What a completion offers.
#[derive(Clone, Copy, PartialEq, Eq, Structural, Debug)]
pub enum Completion {
    /// The command names.
    Commands,
    /// Packages that can be installed.
    Installable,
    /// Packages that were installed by name.
    Installed,
    /// Nothing.
    Nothing,
}

/// What to offer for the word at position `arg_index` (the program's own name
/// is at position 0), after the word `previous`.
pub open spec fn completion_for(arg_index: int, previous: Seq<char>) -> Completion {
    if arg_index == 1 {
        Completion::Commands
    } else if arg_index == 2 {
        match option_named(previous) {
            CommandOptions::Install => Completion::Installable,
            CommandOptions::Remove => Completion::Installed,
            _ => Completion::Nothing,
        }
    } else {
        Completion::Nothing
    }
}

/// Whether a character is white space, as Rust's `char` defines it.
pub uninterp spec fn is_white(c: char) -> bool;

/// Relies on `char::is_whitespace`: the answer depends on the character alone.
#[verifier::external_body]
fn white(c: char) -> (r: bool)
    ensures
        r == is_white(c),
{
    c.is_whitespace()
}

/// Position of the first character at or after `i` for which `is_white` is
/// `w`, or the length of `s`.
pub open spec fn next_where(s: Seq<char>, i: int, w: bool) -> int
    decreases s.len() - i,
{
    if i >= s.len() {
        s.len() as int
    } else if is_white(s[i]) == w {
        i
    } else {
        next_where(s, i + 1, w)
    }
}

/// The first white-space-separated word of a line; empty when there is none.
pub open spec fn first_word(l: Seq<char>) -> Seq<char> {
    let start = next_where(l, 0, false);
    l.subrange(start, next_where(l, start, true))
}

/// The lines that contain `word`, in order.
pub open spec fn lines_with(lines: Seq<Seq<char>>, word: Seq<char>) -> Seq<Seq<char>>
    decreases lines.len(),
{
    if lines.len() == 0 {
        seq![]
    } else if contains(lines.last(), word) {
        lines_with(lines.drop_last(), word).push(lines.last())
    } else {
        lines_with(lines.drop_last(), word)
    }
}

pub open spec fn without_first(s: Seq<Seq<char>>) -> Seq<Seq<char>> {
    if s.len() > 0 {
        s.drop_first()
    } else {
        s
    }
}

/// Suggestions from a list of installed packages: the lines that contain
/// the word, without the first of them.
pub open spec fn installed_suggestions(word: Seq<char>, out: Seq<char>) -> Seq<Seq<char>> {
    without_first(lines_with(lines_of(out), word))
}

/// Suggestions from a list of installable packages: the first word of each
/// line that contains the word, without the first of them.
pub open spec fn installable_suggestions(word: Seq<char>, out: Seq<char>) -> Seq<Seq<char>> {
    without_first(lines_with(lines_of(out), word).map_values(|l: Seq<char>| first_word(l)))
}

proof fn lemma_next_where_bounds(s: Seq<char>, i: int, w: bool)
    requires
        0 <= i <= s.len(),
    ensures
        i <= next_where(s, i, w) <= s.len(),
    decreases s.len() - i,
{
    if i < s.len() && is_white(s[i]) != w {
        lemma_next_where_bounds(s, i + 1, w);
    }
}

fn next_where_exec(s: &[char], i: usize, w: bool) -> (r: usize)
    requires
        i <= s@.len(),
    ensures
        r as int == next_where(s@, i as int, w),
{
    let mut j = i;
    while j < s.len() && white(s[j]) != w
        invariant
            i <= j <= s@.len(),
            next_where(s@, i as int, w) == next_where(s@, j as int, w),
        decreases s@.len() - j,
    {
        j += 1;
    }
    j
}

/// The first white-space-separated word of a line.
pub fn first_word_of(l: &[char]) -> (r: String)
    ensures
        r@ == first_word(l@),
{
    let start = next_where_exec(l, 0, false);
    proof {
        lemma_next_where_bounds(l@, 0, false);
        lemma_next_where_bounds(l@, start as int, true);
    }
    let end = next_where_exec(l, start, true);
    string_of(l, start, end)
}

/// The lines of `out` that contain `word`, each as a text or, with `first`,
/// as its first word; without the first of them.
fn suggestions(word: &str, out: &str, first: bool) -> (r: Vec<String>)
    ensures
        first ==> r.deep_view() == installable_suggestions(word@, out@),
        !first ==> r.deep_view() == installed_suggestions(word@, out@),
{
    let s = chars_of(out);
    let w = chars_of(word);
    let ranges = line_ranges(s.as_slice());
    let ghost lines = lines_of(s@);
    let ghost f = |l: Seq<char>| first_word(l);
    let mut r: Vec<String> = Vec::new();
    let mut j: usize = 0;
    while j < ranges.len()
        invariant
            j <= ranges@.len(),
            ranges@.len() == lines.len(),
            lines == lines_of(out@),
            s@ == out@,
            w@ == word@,
            f == (|l: Seq<char>| first_word(l)),
            forall|k: int|
                0 <= k < ranges@.len() ==> {
                    &&& (#[trigger] ranges@[k]).0 <= ranges@[k].1 <= s@.len()
                    &&& s@.subrange(ranges@[k].0 as int, ranges@[k].1 as int) == lines[k]
                },
            first ==> r.deep_view() == lines_with(lines.take(j as int), word@).map_values(f),
            !first ==> r.deep_view() == lines_with(lines.take(j as int), word@),
        decreases ranges@.len() - j,
    {
        let (lo, hi) = ranges[j];
        let line = sub_chars(s.as_slice(), lo, hi);
        let ghost t = lines.take(j + 1);
        assert(t.drop_last() =~= lines.take(j as int));
        assert(t.last() == line@);
        if contains_exec(line.as_slice(), w.as_slice()) {
            let item = if first {
                first_word_of(line.as_slice())
            } else {
                string_of(line.as_slice(), 0, line.len())
            };
            assert(line@.subrange(0, line@.len() as int) =~= line@);
            let ghost before = r.deep_view();
            r.push(item);
            assert(r.deep_view() =~= before.push(item@));
            assert(lines_with(t, word@) == lines_with(t.drop_last(), word@).push(t.last()));
            assert(lines_with(t, word@).map_values(f) =~= lines_with(
                t.drop_last(),
                word@,
            ).map_values(f).push(f(t.last())));
        }
        j += 1;
    }
    assert(lines.take(j as int) =~= lines);
    if r.len() > 0 {
        let ghost before = r.deep_view();
        r.remove(0);
        assert(r.deep_view() =~= before.drop_first());
    }
    r
}

/// Suggestions from the package manager's list of installed packages.
pub fn remove_suggestions(word: &str, out: &str) -> (r: Vec<String>)
    ensures
        r.deep_view() == installed_suggestions(word@, out@),
{
    suggestions(word, out, false)
}

/// Suggestions from the package manager's list of installable packages.
pub fn add_suggestions(word: &str, out: &str) -> (r: Vec<String>)
    ensures
        r.deep_view() == installable_suggestions(word@, out@),
{
    suggestions(word, out, true)
}

/// The command names offered for the first word.
pub open spec fn command_choices() -> Seq<Seq<char>> {
    seq!["install  -i"@, "remove  -r"@, "query  -q"@, "update  -u"@, "help  -h"@]
}

/// The command names offered for the first word.
pub fn command_names() -> (r: Vec<String>)
    ensures
        r.deep_view() == command_choices(),
{
    let mut r: Vec<String> = Vec::new();
    r.push(String::from_str("install  -i"));
    r.push(String::from_str("remove  -r"));
    r.push(String::from_str("query  -q"));
    r.push(String::from_str("update  -u"));
    r.push(String::from_str("help  -h"));
    assert(r.deep_view() =~= command_choices());
    r
}

/// What to offer for the word at position `arg_index` after `previous`.
pub fn complete(arg_index: usize, previous: &str) -> (r: Completion)
    ensures
        r == completion_for(arg_index as int, previous@),
{
    if arg_index == 1 {
        Completion::Commands
    } else if arg_index == 2 {
        match CommandHelper::attribute_option(previous) {
            CommandOptions::Install => Completion::Installable,
            CommandOptions::Remove => Completion::Installed,
            _ => Completion::Nothing,
        }
    } else {
        Completion::Nothing
    }
}

} // verus!
