//! Classification of what the package manager and the export tool print.
//! Each function here takes the captured output of one run and decides,
//! by the phrases that the tools are known to print, what came of it.
use crate::text::{
    chars_of, contains, contains_exec, line_ranges, lines_of, str_contains, string_of,
    trim_prefix_all, trim_prefix_start,
};
use crate::messages::prefixed;
use vstd::prelude::*;
use vstd::string::*;

verus! {

broadcast use vstd::string::group_string_axioms;

/// The directory under which the container's binaries are listed.
pub open spec fn bin_marker() -> Seq<char> {
    "/usr/bin/"@
}

/// The view of a text result.
pub open spec fn result_view(r: Result<String, String>) -> Result<Seq<char>, Seq<char>> {
    match r {
        Ok(o) => Ok(o@),
        Err(e) => Err(e@),
    }
}

/// A tool's error stream that is not empty and is more than a warning.
pub open spec fn is_real_error(err: Seq<char>) -> bool {
    err.len() > 0 && !contains(err, "warning"@)
}

/// What an install run came to, from its output and error streams.
pub open spec fn install_result(out: Seq<char>, err: Seq<char>) -> Result<Seq<char>, Seq<char>> {
    if contains(out, "-> AUR package does not exist"@) {
        Err("> Package does not exist"@)
    } else if is_real_error(err) {
        Err("> "@ + err)
    } else {
        Ok(out)
    }
}

/// What a removal run came to, from its output and error streams.
pub open spec fn remove_result(out: Seq<char>, err: Seq<char>) -> Result<Seq<char>, Seq<char>> {
    if contains(out, "breaks dependency"@) {
        Err(out)
    } else if is_real_error(err) {
        Err("> "@ + err)
    } else {
        Ok(out)
    }
}

/// What a full update run came to, from its output and error streams.
pub open spec fn update_result(out: Seq<char>, err: Seq<char>) -> Result<Seq<char>, Seq<char>> {
    if is_real_error(err) {
        Err("> "@ + err)
    } else {
        Ok(out)
    }
}

/// The binaries named by a file list's lines, in order: each line under the
/// binary directory, with the leading `"<package> "` taken off.
pub open spec fn listed_binaries(package: Seq<char>, lines: Seq<Seq<char>>) -> Seq<Seq<char>>
    decreases lines.len(),
{
    if lines.len() == 0 {
        seq![]
    } else {
        let before = listed_binaries(package, lines.drop_last());
        if contains(lines.last(), bin_marker()) {
            before.push(trim_prefix_all(lines.last(), package + " "@))
        } else {
            before
        }
    }
}

/// The binaries that a package's file list names, without the first one.
pub open spec fn binaries_of(package: Seq<char>, out: Seq<char>) -> Seq<Seq<char>> {
    let all = listed_binaries(package, lines_of(out));
    if all.len() > 0 {
        all.drop_first()
    } else {
        all
    }
}

/// What a file-list run came to: its error stream, if any, else the binaries.
pub open spec fn query_result(package: Seq<char>, out: Seq<char>, err: Seq<char>) -> Result<
    Seq<Seq<char>>,
    Seq<char>,
> {
    if err.len() > 0 {
        Err(err)
    } else {
        Ok(binaries_of(package, out))
    }
}

/// The concatenation of a sequence of texts.
pub open spec fn joined(parts: Seq<Seq<char>>) -> Seq<char>
    decreases parts.len(),
{
    if parts.len() == 0 {
        seq![]
    } else {
        joined(parts.drop_last()) + parts.last()
    }
}

/// The texts joined with a separator between each two.
pub open spec fn joined_with(parts: Seq<Seq<char>>, sep: Seq<char>) -> Seq<char>
    decreases parts.len(),
{
    if parts.len() == 0 {
        seq![]
    } else if parts.len() == 1 {
        parts[0]
    } else {
        joined_with(parts.drop_last(), sep) + sep + parts.last()
    }
}

/// The body of a dependency-breakage report: its lines without the first and
/// the last, run together.
pub open spec fn breakage_text(out: Seq<char>) -> Seq<char> {
    let ls = lines_of(out);
    if ls.len() >= 2 {
        joined(ls.subrange(1, ls.len() - 1))
    } else {
        seq![]
    }
}

/// A binary's name: its path with the leading binary directory taken off.
pub open spec fn binary_name(binary: Seq<char>) -> Seq<char> {
    trim_prefix_all(binary, bin_marker())
}

/// The characters `s[lo..hi]`.
pub fn sub_chars(s: &[char], lo: usize, hi: usize) -> (r: Vec<char>)
    requires
        lo <= hi <= s@.len(),
    ensures
        r@ == s@.subrange(lo as int, hi as int),
{
    let mut r: Vec<char> = Vec::new();
    let mut i = lo;
    while i < hi
        invariant
            lo <= i <= hi <= s@.len(),
            r@ == s@.subrange(lo as int, i as int),
        decreases hi - i,
    {
        r.push(s[i]);
        assert(r@ =~= s@.subrange(lo as int, i + 1));
        i += 1;
    }
    r
}

/// Whether an error stream is a failure rather than empty or a warning.
pub fn real_error(err: &str) -> (r: bool)
    ensures
        r == is_real_error(err@),
{
    err.unicode_len() > 0 && !str_contains(err, "warning")
}

/// Classifies an install run.
pub fn install(out: &str, err: &str) -> (r: Result<String, String>)
    ensures
        result_view(r) == install_result(out@, err@),
{
    if str_contains(out, "-> AUR package does not exist") {
        Err(String::from_str("> Package does not exist"))
    } else if real_error(err) {
        Err(prefixed("> ", err))
    } else {
        Ok(String::from_str(out))
    }
}

/// Classifies a removal run.
pub fn remove(out: &str, err: &str) -> (r: Result<String, String>)
    ensures
        result_view(r) == remove_result(out@, err@),
{
    if str_contains(out, "breaks dependency") {
        Err(String::from_str(out))
    } else if real_error(err) {
        Err(prefixed("> ", err))
    } else {
        Ok(String::from_str(out))
    }
}

/// Classifies a full update run.
pub fn update(out: &str, err: &str) -> (r: Result<String, String>)
    ensures
        result_view(r) == update_result(out@, err@),
{
    if real_error(err) {
        Err(prefixed("> ", err))
    } else {
        Ok(String::from_str(out))
    }
}

/// The binaries that a package's file list names, without the first one.
pub fn binaries_in(package: &str, out: &str) -> (r: Vec<String>)
    ensures
        r.deep_view() == binaries_of(package@, out@),
{
    let s = chars_of(out);
    let ranges = line_ranges(s.as_slice());
    let mut prefix = chars_of(package);
    prefix.push(' ');
    let marker = chars_of("/usr/bin/");
    let ghost lines = lines_of(s@);
    let ghost pre = package@ + " "@;
    proof {
        assert(prefix@ =~= pre) by {
            reveal_strlit(" ");
        }
    }
    let mut r: Vec<String> = Vec::new();
    let mut j: usize = 0;
    while j < ranges.len()
        invariant
            j <= ranges@.len(),
            ranges@.len() == lines.len(),
            lines == lines_of(out@),
            s@ == out@,
            prefix@ == pre,
            pre == package@ + " "@,
            marker@ == bin_marker(),
            forall|k: int|
                0 <= k < ranges@.len() ==> {
                    &&& (#[trigger] ranges@[k]).0 <= ranges@[k].1 <= s@.len()
                    &&& s@.subrange(ranges@[k].0 as int, ranges@[k].1 as int) == lines[k]
                },
            r.deep_view() == listed_binaries(package@, lines.take(j as int)),
        decreases ranges@.len() - j,
    {
        let (lo, hi) = ranges[j];
        let line = sub_chars(s.as_slice(), lo, hi);
        let ghost t = lines.take(j + 1);
        assert(t.drop_last() =~= lines.take(j as int));
        assert(t.last() == line@);
        if contains_exec(line.as_slice(), marker.as_slice()) {
            let start = trim_prefix_start(line.as_slice(), 0, prefix.as_slice());
            assert(line@.subrange(0, line@.len() as int) =~= line@);
            let b = string_of(line.as_slice(), start, line.len());
            let ghost before = r.deep_view();
            r.push(b);
            assert(r.deep_view() =~= before.push(b@));
            assert(r.deep_view() == listed_binaries(package@, t));
        } else {
            assert(r.deep_view() == listed_binaries(package@, t));
        }
        j += 1;
    }
    assert(lines.take(j as int) =~= lines);
    if r.len() > 0 {
        let ghost before = r.deep_view();
        r.remove(0);
        assert(r.deep_view() =~= before.drop_first());
    }
    r
}

/// Classifies a file-list run of `package`.
pub fn query(package: &str, out: &str, err: &str) -> (r: Result<Vec<String>, String>)
    ensures
        match r {
            Ok(b) => query_result(package@, out@, err@) == Ok::<Seq<Seq<char>>, Seq<char>>(
                b.deep_view(),
            ),
            Err(e) => query_result(package@, out@, err@) == Err::<Seq<Seq<char>>, Seq<char>>(e@),
        },
{
    if err.unicode_len() > 0 {
        Err(String::from_str(err))
    } else {
        Ok(binaries_in(package, out))
    }
}

/// The body of a dependency-breakage report.
pub fn breakage_report(out: &str) -> (r: String)
    ensures
        r@ == breakage_text(out@),
{
    let s = chars_of(out);
    let ranges = line_ranges(s.as_slice());
    let ghost ls = lines_of(s@);
    let mut r = String::new();
    if ranges.len() < 2 {
        return r;
    }
    let last = ranges.len() - 1;
    let mut j: usize = 1;
    while j < last
        invariant
            1 <= j <= last,
            last == ranges@.len() - 1,
            ranges@.len() == ls.len(),
            ls == lines_of(out@),
            forall|k: int|
                0 <= k < ranges@.len() ==> {
                    &&& (#[trigger] ranges@[k]).0 <= ranges@[k].1 <= s@.len()
                    &&& s@.subrange(ranges@[k].0 as int, ranges@[k].1 as int) == ls[k]
                },
            r@ == joined(ls.subrange(1, j as int)),
        decreases last - j,
    {
        let (lo, hi) = ranges[j];
        let part = string_of(s.as_slice(), lo, hi);
        r.append(part.as_str());
        assert(ls.subrange(1, j + 1).drop_last() =~= ls.subrange(1, j as int));
        j += 1;
    }
    r
}

/// A binary's name: its path with the leading binary directory taken off.
pub fn binary_name_of(binary: &str) -> (r: String)
    ensures
        r@ == binary_name(binary@),
{
    let s = chars_of(binary);
    let marker = chars_of("/usr/bin/");
    let start = trim_prefix_start(s.as_slice(), 0, marker.as_slice());
    assert(s@.subrange(0, s@.len() as int) =~= s@);
    string_of(s.as_slice(), start, s.len())
}

/// Whether an export error says that the binary has no desktop entry.
pub fn lacks_desktop_file(err: &str) -> (r: bool)
    ensures
        r == contains(err@, "cannot find any desktop files"@),
{
    str_contains(err, "cannot find any desktop files")
}

/// Whether an update run resolved anything, rather than finding all current.
pub fn resolved_updates(out: &str) -> (r: bool)
    ensures
        r == contains(out@, "resolving dependencies..."@),
{
    str_contains(out, "resolving dependencies...")
}

/// The texts joined with line feeds between them.
pub fn join_lines(parts: &Vec<String>) -> (r: String)
    ensures
        r@ == joined_with(parts.deep_view(), "\n"@),
{
    let mut r = String::new();
    let mut j: usize = 0;
    while j < parts.len()
        invariant
            j <= parts@.len(),
            r@ == joined_with(parts.deep_view().take(j as int), "\n"@),
        decreases parts@.len() - j,
    {
        let ghost t = parts.deep_view().take(j + 1);
        assert(t.drop_last() =~= parts.deep_view().take(j as int));
        if j > 0 {
            r.append("\n");
        }
        r.append(parts[j].as_str());
        j += 1;
    }
    assert(parts.deep_view().take(j as int) =~= parts.deep_view());
    r
}

} // verus!
