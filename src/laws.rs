//! Properties of the library that relate several of its parts, proved.
use crate::classify::{
    bin_marker, binaries_of, binary_name, is_real_error, listed_binaries, query_result,
};
use crate::commands::{
    bin_dir, export_app_args, export_bin_args, list_args, CommandOptions, RequestModel, Tool,
};
use crate::messages::{need_package_msg, not_added_msg, up_to_date_msg, verb_of};
use crate::session::{begin, on_output, Phase, SessionModel};
use crate::text::{contains, lines_of, trim_prefix_all};
use vstd::prelude::*;

verus! {

/// The lines of a file list that lie under the binary directory, with the
/// package prefix taken off each.
pub open spec fn binary_lines(package: Seq<char>, lines: Seq<Seq<char>>) -> Seq<Seq<char>> {
    lines.filter(|l: Seq<char>| contains(l, bin_marker())).map_values(
        |l: Seq<char>| trim_prefix_all(l, package + " "@),
    )
}

proof fn lemma_listed_is_filtered(package: Seq<char>, lines: Seq<Seq<char>>)
    ensures
        listed_binaries(package, lines) == binary_lines(package, lines),
    decreases lines.len(),
{
    reveal(Seq::filter);
    if lines.len() > 0 {
        lemma_listed_is_filtered(package, lines.drop_last());
        let p = |l: Seq<char>| contains(l, bin_marker());
        let t = |l: Seq<char>| trim_prefix_all(l, package + " "@);
        let before = lines.drop_last().filter(p);
        if p(lines.last()) {
            assert(before.push(lines.last()).map_values(t) =~= before.map_values(t).push(
                t(lines.last()),
            ));
        }
    }
}

/// A file list read without error yields exactly the lines under the binary
/// directory, in order and with the package prefix taken off, except the first
/// of them; a non-empty error stream makes the listing fail.
pub proof fn law_query_keeps_binary_lines(package: Seq<char>, out: Seq<char>, err: Seq<char>)
    ensures
        err.len() == 0 ==> query_result(package, out, err) == Ok::<Seq<Seq<char>>, Seq<char>>(
            if binary_lines(package, lines_of(out)).len() > 0 {
                binary_lines(package, lines_of(out)).drop_first()
            } else {
                binary_lines(package, lines_of(out))
            },
        ),
        err.len() > 0 ==> query_result(package, out, err) is Err,
{
    lemma_listed_is_filtered(package, lines_of(out));
}

/// Whatever an install run reports, the next outside work is the file list
/// of the same package, which tells the binaries it brought.
pub proof fn law_install_then_list(m: SessionModel, out: Seq<char>, err: Seq<char>)
    requires
        m.wf(),
        m.phase == Phase::Adding,
    ensures
        on_output(m, out, err).next.request() == Some(
            RequestModel::Run(Tool::PackageManager, list_args(m.package())),
        ),
{
}

/// An update that finds nothing to resolve and no error reports that all
/// packages are up to date and ends, each time it runs: two such runs in a row
/// report the same.
pub proof fn law_update_up_to_date_twice(
    m1: SessionModel,
    out1: Seq<char>,
    err1: Seq<char>,
    m2: SessionModel,
    out2: Seq<char>,
    err2: Seq<char>,
)
    requires
        m1.phase == Phase::Updating,
        m2.phase == Phase::Updating,
        !contains(out1, "resolving dependencies..."@),
        !contains(out2, "resolving dependencies..."@),
        !is_real_error(err1),
        !is_real_error(err2),
    ensures
        on_output(m1, out1, err1).messages == seq![up_to_date_msg()],
        on_output(m2, out2, err2).messages == on_output(m1, out1, err1).messages,
        on_output(m1, out1, err1).next.phase == Phase::Finished,
        on_output(m2, out2, err2).next.phase == Phase::Finished,
{
}

/// Install, remove and query with no package report that one is needed and
/// ask for no outside work at all.
pub proof fn law_no_packages_no_calls(m: SessionModel)
    requires
        m.phase == Phase::Idle,
        m.option == CommandOptions::Install || m.option == CommandOptions::Remove || m.option
            == CommandOptions::Query,
        m.packages.len() == 0,
    ensures
        begin(m).messages == seq![need_package_msg(verb_of(m.option))],
        begin(m).next.request() is None,
{
}

/// After the file list of a newly installed package names binaries, the
/// launcher of the first one is exported next.
pub proof fn law_export_follows_listing(m: SessionModel, out: Seq<char>, err: Seq<char>)
    requires
        m.wf(),
        m.phase == Phase::ListingNew,
        err.len() == 0,
        binaries_of(m.package(), out).len() > 0,
    ensures
        on_output(m, out, err).next.request() == Some(
            RequestModel::Run(
                Tool::Exporter,
                export_app_args(binary_name(binaries_of(m.package(), out)[0])),
            ),
        ),
{
}

/// Each binary of an installed package is exported in turn: a clean export of
/// one is followed by the export of the next.
pub proof fn law_each_binary_exported(m: SessionModel, j: usize, out: Seq<char>, err: Seq<char>)
    requires
        m.wf(),
        m.phase == Phase::ExportingBin(j),
        err.len() == 0,
        j + 1 < m.binaries.len() <= usize::MAX,
    ensures
        on_output(m, out, err).next.request() == Some(
            RequestModel::Run(
                Tool::Exporter,
                export_bin_args(m.binaries[j + 1], bin_dir(m.root)),
            ),
        ),
{
}

/// A package whose file list cannot be read is reported as not added, and the
/// run ends without any removal.
pub proof fn law_unlisted_package_not_removed(m: SessionModel, out: Seq<char>, err: Seq<char>)
    requires
        m.wf(),
        m.phase == Phase::ListingOld,
        err.len() > 0,
    ensures
        on_output(m, out, err).messages == seq![not_added_msg("remove"@)],
        on_output(m, out, err).next.phase == Phase::Finished,
        on_output(m, out, err).next.request() is None,
{
}

} // verus!
