//! The orchestration of one run as a step machine. The caller performs each
//! request that a step hands out and feeds back what came of it; the machine
//! decides what to report and what to do next. Packages are handled strictly
//! in order, and a package whose file list cannot be read ends the run.
use crate::classify::{
    binary_name, binary_name_of, breakage_report, breakage_text, install,
    query, remove, update, install_result, join_lines, joined_with, lacks_desktop_file,
    query_result, remove_result, resolved_updates, update_result,
};
use crate::commands::{
    bin_dir, bin_dir_of, export_app_args, export_app_request, export_bin_args, export_bin_request,
    install_args, install_request, list_args, list_request, remove_args, remove_request,
    unexport_app_args, unexport_app_request, unexport_bin_args, unexport_bin_request, update_args,
    update_request, CommandHelper, CommandOptions, Request, RequestModel, Tool,
};
use crate::messages::{
    adding_msg, bye_msg, export_app_error_msg, export_bin_error_msg, exporting_msg, framed,
    help_msg, install_error_msg, installing_msg, missing_dir_msg, need_package_msg,
    no_desktop_msg, not_added_msg, not_exported_msg, prefixed, reinstalling_msg,
    remove_error_msg, trying_install_msg, trying_remove_msg, trying_unexport_msg,
    trying_update_msg, unexport_app_error_msg, unexporting_msg, up_to_date_msg, update_error_msg,
    updating_msg, verb, verb_of, HELP,
};
use crate::text::{contains, str_contains};
use vstd::prelude::*;
use vstd::string::*;

verus! {

broadcast use vstd::string::group_string_axioms;

/// Where a run stands: which outside result it waits for.
#[derive(Clone, Copy, PartialEq, Eq, Structural, Debug)]
pub enum Phase {
    /// Not started.
    Idle,
    /// Waiting for the install run of the current package.
    Adding,
    /// Waiting for the file list of a package just installed.
    ListingNew,
    /// Waiting for the launcher export of the binary at this position.
    ExportingApp(usize),
    /// Waiting for the export of the binary at this position.
    ExportingBin(usize),
    /// Waiting for the file list of a package to remove.
    ListingOld,
    /// Waiting for the launcher removal of the binary at this position.
    UnexportingApp(usize),
    /// Waiting to learn whether the exported binary directory exists.
    ProbingBinDir(usize),
    /// Waiting for the removal of the exported binary at this position.
    UnexportingBin(usize),
    /// Waiting for the removal run of the current package.
    Removing,
    /// Waiting for the full update run.
    Updating,
    /// Waiting for the file list of a package to report.
    Listing,
    /// Nothing more to do.
    Finished,
}

/// What came of a request: a tool's two streams, or whether a directory exists.
pub enum Event {
    Output { stdout: String, stderr: String },
    Probed(bool),
}

/// The lines to report, then the next request (none: the run is over).
pub struct Step {
    pub messages: Vec<String>,
    pub request: Option<Request>,
}

/// One run: the command, the export root, and where the run stands.
pub struct Session {
    pub helper: CommandHelper,
    pub root: String,
    pub phase: Phase,
    pub index: usize,
    pub binaries: Vec<String>,
}

/// The mathematical value of a session.
pub struct SessionModel {
    pub option: CommandOptions,
    pub packages: Seq<Seq<char>>,
    pub root: Seq<char>,
    pub phase: Phase,
    pub index: int,
    pub binaries: Seq<Seq<char>>,
}

/// A move of the machine: the state it goes to and what it reports on the way.
pub struct Transition {
    pub next: SessionModel,
    pub messages: Seq<Seq<char>>,
}

pub open spec fn opt_request(r: Option<Request>) -> Option<RequestModel> {
    match r {
        Some(q) => Some(q.model()),
        None => None,
    }
}

impl SessionModel {
    pub open spec fn at(self, phase: Phase, index: int, binaries: Seq<Seq<char>>) -> SessionModel {
        SessionModel { phase, index, binaries, ..self }
    }

    pub open spec fn package(self) -> Seq<char> {
        self.packages[self.index]
    }

    pub open spec fn finish(self) -> SessionModel {
        self.at(Phase::Finished, self.index, self.binaries)
    }

    /// The positions that the phase refers to are in range.
    pub open spec fn wf(self) -> bool {
        &&& 0 <= self.index <= self.packages.len()
        &&& match self.phase {
            Phase::Adding | Phase::ListingNew | Phase::ListingOld | Phase::Listing
            | Phase::Removing => self.index < self.packages.len(),
            Phase::ExportingApp(j) | Phase::ExportingBin(j) | Phase::UnexportingApp(j)
            | Phase::ProbingBinDir(j) | Phase::UnexportingBin(j) => self.index
                < self.packages.len() && j < self.binaries.len(),
            _ => true,
        }
    }

    /// The outside work that the state waits for.
    pub open spec fn request(self) -> Option<RequestModel> {
        match self.phase {
            Phase::Adding => Some(
                RequestModel::Run(Tool::PackageManager, install_args(self.package())),
            ),
            Phase::ListingNew | Phase::ListingOld | Phase::Listing => Some(
                RequestModel::Run(Tool::PackageManager, list_args(self.package())),
            ),
            Phase::ExportingApp(j) => Some(
                RequestModel::Run(Tool::Exporter, export_app_args(binary_name(self.binaries[j as int]))),
            ),
            Phase::ExportingBin(j) => Some(
                RequestModel::Run(
                    Tool::Exporter,
                    export_bin_args(self.binaries[j as int], bin_dir(self.root)),
                ),
            ),
            Phase::UnexportingApp(j) => Some(
                RequestModel::Run(
                    Tool::Exporter,
                    unexport_app_args(binary_name(self.binaries[j as int])),
                ),
            ),
            Phase::ProbingBinDir(_) => Some(RequestModel::Probe(bin_dir(self.root))),
            Phase::UnexportingBin(j) => Some(
                RequestModel::Run(
                    Tool::Exporter,
                    unexport_bin_args(self.binaries[j as int], bin_dir(self.root)),
                ),
            ),
            Phase::Removing => Some(
                RequestModel::Run(Tool::PackageManager, remove_args(self.package())),
            ),
            Phase::Updating => Some(RequestModel::Run(Tool::PackageManager, update_args())),
            _ => None,
        }
    }
}

/// A run of `option` on `packages`, exporting under `root`, not yet started.
pub open spec fn fresh(option: CommandOptions, packages: Seq<Seq<char>>, root: Seq<char>) -> SessionModel {
    SessionModel { option, packages, root, phase: Phase::Idle, index: 0, binaries: seq![] }
}

pub open spec fn moved(next: SessionModel, messages: Seq<Seq<char>>) -> Transition {
    Transition { next, messages }
}

/// `t`, with `first` reported before what `t` reports.
pub open spec fn after(first: Seq<Seq<char>>, t: Transition) -> Transition {
    Transition { next: t.next, messages: first + t.messages }
}

/// Turning to the package at position `i`, or ending when there is none.
pub open spec fn start_package(m: SessionModel, i: int) -> Transition {
    if i >= m.packages.len() {
        moved(m.at(Phase::Finished, i, seq![]), seq![])
    } else {
        match m.option {
            CommandOptions::Install => moved(
                m.at(Phase::Adding, i, seq![]),
                seq![adding_msg(), trying_install_msg(m.packages[i])],
            ),
            CommandOptions::Remove => moved(m.at(Phase::ListingOld, i, seq![]), seq![]),
            CommandOptions::Query => moved(m.at(Phase::Listing, i, seq![]), seq![]),
            _ => moved(m.at(Phase::Finished, i, seq![]), seq![]),
        }
    }
}

/// The first move of a run.
pub open spec fn begin(m: SessionModel) -> Transition {
    match m.option {
        CommandOptions::Install | CommandOptions::Remove | CommandOptions::Query => {
            if m.packages.len() == 0 {
                moved(m.finish(), seq![need_package_msg(verb_of(m.option))])
            } else {
                start_package(m, 0)
            }
        },
        CommandOptions::Update => moved(
            m.at(Phase::Updating, m.index, m.binaries),
            seq![trying_update_msg()],
        ),
        CommandOptions::Help => moved(m.finish(), seq![help_msg()]),
    }
}

pub open spec fn enter_export_bin(m: SessionModel, j: int) -> Transition {
    if j < m.binaries.len() {
        moved(m.at(Phase::ExportingBin(j as usize), m.index, m.binaries), seq![])
    } else {
        start_package(m, m.index + 1)
    }
}

pub open spec fn enter_export_app(m: SessionModel, j: int) -> Transition {
    if j < m.binaries.len() {
        moved(m.at(Phase::ExportingApp(j as usize), m.index, m.binaries), seq![])
    } else {
        enter_export_bin(m, 0)
    }
}

pub open spec fn start_removal(m: SessionModel) -> Transition {
    moved(m.at(Phase::Removing, m.index, m.binaries), seq![trying_remove_msg(m.package())])
}

pub open spec fn enter_probe(m: SessionModel, j: int) -> Transition {
    if j < m.binaries.len() {
        moved(m.at(Phase::ProbingBinDir(j as usize), m.index, m.binaries), seq![])
    } else {
        start_removal(m)
    }
}

pub open spec fn enter_unexport_app(m: SessionModel, j: int) -> Transition {
    if j < m.binaries.len() {
        moved(m.at(Phase::UnexportingApp(j as usize), m.index, m.binaries), seq![])
    } else {
        after(seq![trying_unexport_msg()], enter_probe(m, 0))
    }
}

/// What an install run is reported as.
pub open spec fn install_report(package: Seq<char>, out: Seq<char>, err: Seq<char>) -> Seq<
    Seq<char>,
> {
    let note = if contains(err, "-- reinstalling"@) {
        seq![reinstalling_msg(package)]
    } else if contains(out, "resolving dependencies..."@) {
        seq![installing_msg(package)]
    } else {
        seq![]
    };
    match install_result(out, err) {
        Err(e) => note.push(install_error_msg(e)),
        Ok(_) => note,
    }
}

/// What the export tool says of a binary without a desktop entry.
pub open spec fn desktop_phrase() -> Seq<char> {
    "cannot find any desktop files"@
}

/// What a removal run is reported as.
pub open spec fn remove_report(package: Seq<char>, out: Seq<char>, err: Seq<char>) -> Seq<
    Seq<char>,
> {
    match remove_result(out, err) {
        Err(e) => if contains(e, "breaks dependency"@) {
            seq![breakage_text(e)]
        } else {
            seq![remove_error_msg(e)]
        },
        Ok(_) => seq![bye_msg(package), seq![]],
    }
}

/// What a full update run is reported as.
pub open spec fn update_report(out: Seq<char>, err: Seq<char>) -> Seq<Seq<char>> {
    let status = if contains(out, "resolving dependencies..."@) {
        updating_msg()
    } else {
        up_to_date_msg()
    };
    match update_result(out, err) {
        Err(e) => seq![status, update_error_msg(e)],
        Ok(_) => seq![status],
    }
}

/// The move on a tool's output and error streams.
pub open spec fn on_output(m: SessionModel, out: Seq<char>, err: Seq<char>) -> Transition {
    match m.phase {
        Phase::Adding => moved(
            m.at(Phase::ListingNew, m.index, m.binaries),
            install_report(m.package(), out, err),
        ),
        Phase::ListingNew => match query_result(m.package(), out, err) {
            Err(_) => moved(m.finish(), seq![]),
            Ok(b) => enter_export_app(m.at(m.phase, m.index, b), 0),
        },
        Phase::ExportingApp(j) => if err.len() > 0 {
            if contains(err, desktop_phrase()) {
                after(seq![no_desktop_msg()], enter_export_app(m, j + 1))
            } else {
                after(seq![export_app_error_msg(err)], enter_export_bin(m, 0))
            }
        } else {
            enter_export_app(m, j + 1)
        },
        Phase::ExportingBin(j) => if err.len() > 0 {
            moved(m.finish(), seq![export_bin_error_msg(err)])
        } else {
            after(
                seq![exporting_msg(binary_name(m.binaries[j as int])), seq![]],
                enter_export_bin(m, j + 1),
            )
        },
        Phase::ListingOld => match query_result(m.package(), out, err) {
            Err(_) => moved(m.finish(), seq![not_added_msg("remove"@)]),
            Ok(b) => enter_unexport_app(m.at(m.phase, m.index, b), 0),
        },
        Phase::UnexportingApp(j) => if err.len() > 0 {
            if contains(err, desktop_phrase()) {
                after(seq![no_desktop_msg()], enter_unexport_app(m, j + 1))
            } else {
                after(
                    seq![unexport_app_error_msg(err), trying_unexport_msg()],
                    enter_probe(m, 0),
                )
            }
        } else {
            enter_unexport_app(m, j + 1)
        },
        Phase::UnexportingBin(j) => if err.len() > 0 {
            after(seq![not_exported_msg()], start_removal(m))
        } else {
            after(
                seq![unexporting_msg(binary_name(m.binaries[j as int]))],
                enter_probe(m, j + 1),
            )
        },
        Phase::Removing => after(
            remove_report(m.package(), out, err),
            start_package(m, m.index + 1),
        ),
        Phase::Updating => moved(m.finish(), update_report(out, err)),
        Phase::Listing => match query_result(m.package(), out, err) {
            Err(_) => moved(m.finish(), seq![not_added_msg("query"@)]),
            Ok(b) => after(seq![joined_with(b, "\n"@)], start_package(m, m.index + 1)),
        },
        _ => moved(m, seq![]),
    }
}

/// The move on learning whether the exported binary directory exists.
pub open spec fn on_probe(m: SessionModel, present: bool) -> Transition {
    match m.phase {
        Phase::ProbingBinDir(j) => if present {
            moved(m.at(Phase::UnexportingBin(j), m.index, m.binaries), seq![])
        } else {
            after(
                seq![missing_dir_msg(binary_name(m.binaries[j as int]))],
                enter_probe(m, j + 1),
            )
        },
        _ => moved(m, seq![]),
    }
}

/// The move on an event.
pub open spec fn on_event(m: SessionModel, e: Event) -> Transition {
    match e {
        Event::Output { stdout, stderr } => on_output(m, stdout@, stderr@),
        Event::Probed(p) => on_probe(m, p),
    }
}

/// An event of the kind that the phase waits for.
pub open spec fn fits(phase: Phase, e: Event) -> bool {
    (phase is ProbingBinDir) == (e is Probed)
}

fn say(msgs: &mut Vec<String>, s: String)
    ensures
        final(msgs).deep_view() == old(msgs).deep_view().push(s@),
{
    msgs.push(s);
    assert(msgs.deep_view() =~= old(msgs).deep_view().push(s@));
}

impl Session {
    pub open spec fn model(&self) -> SessionModel {
        SessionModel {
            option: self.helper.option,
            packages: self.helper.packages.deep_view(),
            root: self.root@,
            phase: self.phase,
            index: self.index as int,
            binaries: self.binaries.deep_view(),
        }
    }

    /// A run of `helper`'s command that exports under `root`, not yet started.
    pub fn new(helper: CommandHelper, root: String) -> (r: Session)
        ensures
            r.model() == fresh(helper.option, helper.packages.deep_view(), root@),
    {
        let r = Session { helper, root, phase: Phase::Idle, index: 0, binaries: Vec::new() };
        assert(r.binaries.deep_view() =~= seq![]);
        r
    }

    /// Whether the run waits to learn if a directory exists.
    pub fn awaits_probe(&self) -> (r: bool)
        ensures
            r == (self.phase is ProbingBinDir),
    {
        match self.phase {
            Phase::ProbingBinDir(_) => true,
            _ => false,
        }
    }

    fn set(&mut self, phase: Phase, index: usize)
        ensures
            final(self).model() == old(self).model().at(
                phase,
                index as int,
                old(self).model().binaries,
            ),
    {
        self.phase = phase;
        self.index = index;
    }

    fn start_package(&mut self, i: usize, msgs: &mut Vec<String>)
        requires
            i <= old(self).helper.packages@.len(),
        ensures
            final(self).model() == start_package(old(self).model(), i as int).next,
            final(msgs).deep_view() == old(msgs).deep_view() + start_package(
                old(self).model(),
                i as int,
            ).messages,
    {
        let ghost m = self.model();
        self.binaries = Vec::new();
        assert(self.binaries.deep_view() =~= seq![]);
        assert(old(msgs).deep_view() + seq![] =~= old(msgs).deep_view());
        if i >= self.helper.packages.len() {
            self.set(Phase::Finished, i);
            return ;
        }
        match self.helper.option {
            CommandOptions::Install => {
                let pkg = self.helper.packages[i].as_str();
                say(msgs, String::from_str("> Adding package"));
                say(msgs, framed("> Trying to install ", pkg, "..."));
                assert(msgs.deep_view() =~= old(msgs).deep_view() + seq![
                    adding_msg(),
                    trying_install_msg(m.packages[i as int]),
                ]);
                self.set(Phase::Adding, i);
            },
            CommandOptions::Remove => {
                self.set(Phase::ListingOld, i);
            },
            CommandOptions::Query => {
                self.set(Phase::Listing, i);
            },
            _ => {
                self.set(Phase::Finished, i);
            },
        }
    }

    fn enter_export_bin(&mut self, j: usize, msgs: &mut Vec<String>)
        requires
            old(self).index < old(self).helper.packages@.len(),
        ensures
            final(self).model() == enter_export_bin(old(self).model(), j as int).next,
            final(msgs).deep_view() == old(msgs).deep_view() + enter_export_bin(
                old(self).model(),
                j as int,
            ).messages,
    {
        if j < self.binaries.len() {
            assert(old(msgs).deep_view() + seq![] =~= old(msgs).deep_view());
            let index = self.index;
            self.set(Phase::ExportingBin(j), index);
        } else {
            let n = self.helper.packages.len();
            assert(self.index < n);
            let next = self.index + 1;
            self.start_package(next, msgs);
        }
    }

    fn enter_export_app(&mut self, j: usize, msgs: &mut Vec<String>)
        requires
            old(self).index < old(self).helper.packages@.len(),
        ensures
            final(self).model() == enter_export_app(old(self).model(), j as int).next,
            final(msgs).deep_view() == old(msgs).deep_view() + enter_export_app(
                old(self).model(),
                j as int,
            ).messages,
    {
        if j < self.binaries.len() {
            assert(old(msgs).deep_view() + seq![] =~= old(msgs).deep_view());
            let index = self.index;
            self.set(Phase::ExportingApp(j), index);
        } else {
            self.enter_export_bin(0, msgs);
        }
    }

    fn start_removal(&mut self, msgs: &mut Vec<String>)
        requires
            old(self).index < old(self).helper.packages@.len(),
        ensures
            final(self).model() == start_removal(old(self).model()).next,
            final(msgs).deep_view() == old(msgs).deep_view() + start_removal(
                old(self).model(),
            ).messages,
    {
        let pkg = self.helper.packages[self.index].as_str();
        say(msgs, framed("> Trying to remove ", pkg, "..."));
        assert(msgs.deep_view() =~= old(msgs).deep_view() + start_removal(
            old(self).model(),
        ).messages);
        let index = self.index;
        self.set(Phase::Removing, index);
    }

    fn enter_probe(&mut self, j: usize, msgs: &mut Vec<String>)
        requires
            old(self).index < old(self).helper.packages@.len(),
        ensures
            final(self).model() == enter_probe(old(self).model(), j as int).next,
            final(msgs).deep_view() == old(msgs).deep_view() + enter_probe(
                old(self).model(),
                j as int,
            ).messages,
    {
        if j < self.binaries.len() {
            assert(old(msgs).deep_view() + seq![] =~= old(msgs).deep_view());
            let index = self.index;
            self.set(Phase::ProbingBinDir(j), index);
        } else {
            self.start_removal(msgs);
        }
    }

    fn enter_unexport_app(&mut self, j: usize, msgs: &mut Vec<String>)
        requires
            old(self).index < old(self).helper.packages@.len(),
        ensures
            final(self).model() == enter_unexport_app(old(self).model(), j as int).next,
            final(msgs).deep_view() == old(msgs).deep_view() + enter_unexport_app(
                old(self).model(),
                j as int,
            ).messages,
    {
        if j < self.binaries.len() {
            assert(old(msgs).deep_view() + seq![] =~= old(msgs).deep_view());
            let index = self.index;
            self.set(Phase::UnexportingApp(j), index);
        } else {
            say(msgs, String::from_str("> Trying to unexport binaries..."));
            self.enter_probe(0, msgs);
            assert(msgs.deep_view() =~= old(msgs).deep_view() + enter_unexport_app(
                old(self).model(),
                j as int,
            ).messages);
        }
    }

    fn finish(&mut self)
        ensures
            final(self).model() == old(self).model().finish(),
    {
        let index = self.index;
        self.set(Phase::Finished, index);
    }

    fn on_output(&mut self, out: &str, err: &str, msgs: &mut Vec<String>)
        requires
            old(self).model().wf(),
        ensures
            final(self).model() == on_output(old(self).model(), out@, err@).next,
            final(msgs).deep_view() == old(msgs).deep_view() + on_output(
                old(self).model(),
                out@,
                err@,
            ).messages,
    {
        let ghost m = self.model();
        let ghost d0 = msgs.deep_view();
        let n = self.helper.packages.len();
        let nb = self.binaries.len();
        match self.phase {
            Phase::Adding => {
                let pkg = self.helper.packages[self.index].as_str();
                if str_contains(err, "-- reinstalling") {
                    say(msgs, framed("> Reinstalling ", pkg, "..."));
                } else if str_contains(out, "resolving dependencies...") {
                    say(msgs, framed("> Installing ", pkg, "..."));
                }
                match install(out, err) {
                    Err(x) => {
                        say(msgs, prefixed("> Error adding package: ", x.as_str()));
                    },
                    Ok(_) => {},
                }
                assert(msgs.deep_view() =~= d0 + install_report(m.package(), out@, err@));
                let index = self.index;
                self.set(Phase::ListingNew, index);
            },
            Phase::ListingNew => {
                let pkg = self.helper.packages[self.index].as_str();
                match query(pkg, out, err) {
                    Err(_) => {
                        self.finish();
                    },
                    Ok(b) => {
                        self.binaries = b;
                        self.enter_export_app(0, msgs);
                    },
                }
            },
            Phase::ExportingApp(j) => {
                if err.unicode_len() > 0 {
                    if lacks_desktop_file(err) {
                        say(msgs, String::from_str("> Not have a .desktop file"));
                        self.enter_export_app(j + 1, msgs);
                    } else {
                        say(msgs, prefixed("> Error exporting package: ", err));
                        self.enter_export_bin(0, msgs);
                    }
                } else {
                    self.enter_export_app(j + 1, msgs);
                }
            },
            Phase::ExportingBin(j) => {
                if err.unicode_len() > 0 {
                    say(msgs, prefixed("> Error exporting binaries: ", err));
                    self.finish();
                } else {
                    let name = binary_name_of(self.binaries[j].as_str());
                    say(msgs, framed("> Exporting ", name.as_str(), "..."));
                    say(msgs, String::new());
                    self.enter_export_bin(j + 1, msgs);
                }
            },
            Phase::ListingOld => {
                let pkg = self.helper.packages[self.index].as_str();
                match query(pkg, out, err) {
                    Err(_) => {
                        say(msgs, prefixed("> Package not added, can't ", "remove"));
                        self.finish();
                    },
                    Ok(b) => {
                        self.binaries = b;
                        self.enter_unexport_app(0, msgs);
                    },
                }
            },
            Phase::UnexportingApp(j) => {
                if err.unicode_len() > 0 {
                    if lacks_desktop_file(err) {
                        say(msgs, String::from_str("> Not have a .desktop file"));
                        self.enter_unexport_app(j + 1, msgs);
                    } else {
                        say(msgs, prefixed("> Error unexporting package: ", err));
                        say(msgs, String::from_str("> Trying to unexport binaries..."));
                        self.enter_probe(0, msgs);
                    }
                } else {
                    self.enter_unexport_app(j + 1, msgs);
                }
            },
            Phase::UnexportingBin(j) => {
                if err.unicode_len() > 0 {
                    say(msgs, String::from_str("> Package not exported, can't unexport"));
                    self.start_removal(msgs);
                } else {
                    let name = binary_name_of(self.binaries[j].as_str());
                    say(msgs, framed("> Unexporting ", name.as_str(), "..."));
                    self.enter_probe(j + 1, msgs);
                }
            },
            Phase::Removing => {
                let pkg = self.helper.packages[self.index].as_str();
                match remove(out, err) {
                    Err(x) => {
                        if str_contains(x.as_str(), "breaks dependency") {
                            say(msgs, breakage_report(x.as_str()));
                        } else {
                            say(msgs, prefixed("> Error removing package: ", x.as_str()));
                        }
                    },
                    Ok(_) => {
                        say(msgs, framed("> Bye bye ", pkg, " :)"));
                        say(msgs, String::new());
                    },
                }
                assert(msgs.deep_view() =~= d0 + remove_report(m.package(), out@, err@));
                let next = self.index + 1;
                self.start_package(next, msgs);
            },
            Phase::Updating => {
                if resolved_updates(out) {
                    say(msgs, String::from_str("> Updating..."));
                } else {
                    say(msgs, String::from_str("> All packages are up to date <3"));
                }
                match update(out, err) {
                    Err(x) => {
                        say(msgs, prefixed("Error updating: ", x.as_str()));
                    },
                    Ok(_) => {},
                }
                assert(msgs.deep_view() =~= d0 + update_report(out@, err@));
                self.finish();
            },
            Phase::Listing => {
                let pkg = self.helper.packages[self.index].as_str();
                match query(pkg, out, err) {
                    Err(_) => {
                        say(msgs, prefixed("> Package not added, can't ", "query"));
                        self.finish();
                    },
                    Ok(b) => {
                        say(msgs, join_lines(&b));
                        let next = self.index + 1;
                        self.start_package(next, msgs);
                    },
                }
            },
            _ => {},
        }
        assert(msgs.deep_view() =~= d0 + on_output(m, out@, err@).messages);
    }

    fn on_probe(&mut self, present: bool, msgs: &mut Vec<String>)
        requires
            old(self).model().wf(),
        ensures
            final(self).model() == on_probe(old(self).model(), present).next,
            final(msgs).deep_view() == old(msgs).deep_view() + on_probe(
                old(self).model(),
                present,
            ).messages,
    {
        let ghost m = self.model();
        let ghost d0 = msgs.deep_view();
        let nb = self.binaries.len();
        match self.phase {
            Phase::ProbingBinDir(j) => {
                if present {
                    let index = self.index;
                    self.set(Phase::UnexportingBin(j), index);
                } else {
                    let name = binary_name_of(self.binaries[j].as_str());
                    say(msgs, framed("> ", name.as_str(), " not exists to be unexported"));
                    self.enter_probe(j + 1, msgs);
                }
            },
            _ => {},
        }
        assert(msgs.deep_view() =~= d0 + on_probe(m, present).messages);
    }

    /// The outside work that the run waits for, if any.
    pub fn request(&self) -> (r: Option<Request>)
        requires
            self.model().wf(),
        ensures
            opt_request(r) == self.model().request(),
    {
        match self.phase {
            Phase::Adding => Some(install_request(self.helper.packages[self.index].as_str())),
            Phase::ListingNew | Phase::ListingOld | Phase::Listing => Some(
                list_request(self.helper.packages[self.index].as_str()),
            ),
            Phase::ExportingApp(j) => {
                let name = binary_name_of(self.binaries[j].as_str());
                Some(export_app_request(name.as_str()))
            },
            Phase::ExportingBin(j) => {
                let dir = bin_dir_of(self.root.as_str());
                Some(export_bin_request(self.binaries[j].as_str(), dir.as_str()))
            },
            Phase::UnexportingApp(j) => {
                let name = binary_name_of(self.binaries[j].as_str());
                Some(unexport_app_request(name.as_str()))
            },
            Phase::ProbingBinDir(_) => Some(Request::Probe(bin_dir_of(self.root.as_str()))),
            Phase::UnexportingBin(j) => {
                let dir = bin_dir_of(self.root.as_str());
                Some(unexport_bin_request(self.binaries[j].as_str(), dir.as_str()))
            },
            Phase::Removing => Some(remove_request(self.helper.packages[self.index].as_str())),
            Phase::Updating => Some(update_request()),
            _ => None,
        }
    }

    /// Starts the run: what it reports first, and the first outside work.
    pub fn start(&mut self) -> (st: Step)
        requires
            old(self).phase == Phase::Idle,
            old(self).index == 0,
        ensures
            final(self).model() == begin(old(self).model()).next,
            final(self).model().wf(),
            st.messages.deep_view() == begin(old(self).model()).messages,
            opt_request(st.request) == final(self).model().request(),
    {
        let ghost m = self.model();
        let mut msgs: Vec<String> = Vec::new();
        assert(msgs.deep_view() =~= seq![]);
        match self.helper.option {
            CommandOptions::Install | CommandOptions::Remove | CommandOptions::Query => {
                if self.helper.packages.len() == 0 {
                    say(&mut msgs, prefixed("> You need to specify a package to ", verb(self.helper.option)));
                    self.finish();
                } else {
                    self.start_package(0, &mut msgs);
                }
            },
            CommandOptions::Update => {
                say(&mut msgs, String::from_str("> Trying to update..."));
                let index = self.index;
                self.set(Phase::Updating, index);
            },
            CommandOptions::Help => {
                say(&mut msgs, String::from_str(HELP));
                self.finish();
            },
        }
        assert(msgs.deep_view() =~= begin(m).messages);
        let request = self.request();
        Step { messages: msgs, request }
    }

    /// Takes what came of the last request: what to report, and the next
    /// outside work.
    pub fn advance(&mut self, e: Event) -> (st: Step)
        requires
            old(self).model().wf(),
            fits(old(self).phase, e),
        ensures
            final(self).model() == on_event(old(self).model(), e).next,
            final(self).model().wf(),
            st.messages.deep_view() == on_event(old(self).model(), e).messages,
            opt_request(st.request) == final(self).model().request(),
    {
        let mut msgs: Vec<String> = Vec::new();
        assert(msgs.deep_view() =~= seq![]);
        match e {
            Event::Output { stdout, stderr } => {
                self.on_output(stdout.as_str(), stderr.as_str(), &mut msgs);
            },
            Event::Probed(present) => {
                self.on_probe(present, &mut msgs);
            },
        }
        assert(msgs.deep_view() =~= on_event(old(self).model(), e).messages);
        let request = self.request();
        Step { messages: msgs, request }
    }
}

impl CommandHelper {
    /// Starts a run of this command that exports under `root`: the session,
    /// what it reports first, and its first outside work.
    pub fn process(self, root: String) -> (r: (Session, Step))
        ensures
            r.0.model() == begin(fresh(self.option, self.packages.deep_view(), root@)).next,
            r.0.model().wf(),
            r.1.messages.deep_view() == begin(
                fresh(self.option, self.packages.deep_view(), root@),
            ).messages,
            opt_request(r.1.request) == r.0.model().request(),
    {
        let mut session = Session::new(self, root);
        let step = session.start();
        (session, step)
    }
}

} // verus!
