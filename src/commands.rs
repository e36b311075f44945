//! The command a run was asked for, the packages it names, and the tool
//! invocations that each operation makes.
use crate::classify::{binaries_in, query_result};
use crate::text::same_text;
use vstd::prelude::*;
use vstd::string::*;

verus! {

broadcast use vstd::string::group_string_axioms;

/// What a run was asked to do.
#[derive(Clone, Copy, PartialEq, Eq, Structural, Debug)]
pub enum CommandOptions {
    Install,
    Remove,
    Query,
    Update,
    Help,
}

/// A command and the packages it names, in the order given.
pub struct CommandHelper {
    pub option: CommandOptions,
    pub packages: Vec<String>,
}

/// The command that a first argument names; anything else asks for help.
pub open spec fn option_named(c: Seq<char>) -> CommandOptions {
    if c == "install"@ || c == "-i"@ {
        CommandOptions::Install
    } else if c == "remove"@ || c == "-r"@ {
        CommandOptions::Remove
    } else if c == "query"@ || c == "-q"@ {
        CommandOptions::Query
    } else if c == "update"@ || c == "-u"@ {
        CommandOptions::Update
    } else {
        CommandOptions::Help
    }
}

/// The program that a request runs.
#[derive(Clone, Copy, PartialEq, Eq, Structural, Debug)]
pub enum Tool {
    /// The package manager of the container.
    PackageManager,
    /// The tool that exposes the container's binaries and launchers on the host.
    Exporter,
}

/// One piece of outside work: a tool run with its arguments, or a check that
/// a directory exists.
pub enum Request {
    Run(Tool, Vec<String>),
    Probe(String),
}

/// The mathematical value of a request.
pub enum RequestModel {
    Run(Tool, Seq<Seq<char>>),
    Probe(Seq<char>),
}

impl Request {
    pub open spec fn model(&self) -> RequestModel {
        match self {
            Request::Run(t, a) => RequestModel::Run(*t, a.deep_view()),
            Request::Probe(d) => RequestModel::Probe(d@),
        }
    }
}

pub open spec fn install_args(package: Seq<char>) -> Seq<Seq<char>> {
    seq!["-S"@, "--noconfirm"@, package]
}

pub open spec fn list_args(package: Seq<char>) -> Seq<Seq<char>> {
    seq!["-Ql"@, package]
}

pub open spec fn remove_args(package: Seq<char>) -> Seq<Seq<char>> {
    seq!["-R"@, "--noconfirm"@, package]
}

pub open spec fn update_args() -> Seq<Seq<char>> {
    seq!["-Syu"@, "--noconfirm"@]
}

pub open spec fn export_app_args(name: Seq<char>) -> Seq<Seq<char>> {
    seq!["--app"@, name]
}

pub open spec fn unexport_app_args(name: Seq<char>) -> Seq<Seq<char>> {
    seq!["--app"@, name, "--delete"@]
}

pub open spec fn export_bin_args(binary: Seq<char>, dir: Seq<char>) -> Seq<Seq<char>> {
    seq!["-b"@, binary, "-ep"@, dir]
}

pub open spec fn unexport_bin_args(binary: Seq<char>, dir: Seq<char>) -> Seq<Seq<char>> {
    seq!["-b"@, binary, "-ep"@, dir, "--delete"@]
}

/// The host directory that exported binaries go to, under the export root.
pub open spec fn bin_dir(root: Seq<char>) -> Seq<char> {
    root + "/bin"@
}

fn text(s: &str) -> (r: String)
    ensures
        r@ == s@,
{
    String::from_str(s)
}

/// Runs the package manager with the given arguments.
pub fn package_manager(args: Vec<String>) -> (r: Request)
    ensures
        r.model() == RequestModel::Run(Tool::PackageManager, args.deep_view()),
{
    Request::Run(Tool::PackageManager, args)
}

/// Runs the export tool with the given arguments.
pub fn exporter(args: Vec<String>) -> (r: Request)
    ensures
        r.model() == RequestModel::Run(Tool::Exporter, args.deep_view()),
{
    Request::Run(Tool::Exporter, args)
}

pub fn install_request(package: &str) -> (r: Request)
    ensures
        r.model() == RequestModel::Run(Tool::PackageManager, install_args(package@)),
{
    let mut a: Vec<String> = Vec::new();
    a.push(text("-S"));
    a.push(text("--noconfirm"));
    a.push(text(package));
    assert(a.deep_view() =~= install_args(package@));
    package_manager(a)
}

pub fn list_request(package: &str) -> (r: Request)
    ensures
        r.model() == RequestModel::Run(Tool::PackageManager, list_args(package@)),
{
    let mut a: Vec<String> = Vec::new();
    a.push(text("-Ql"));
    a.push(text(package));
    assert(a.deep_view() =~= list_args(package@));
    package_manager(a)
}

pub fn remove_request(package: &str) -> (r: Request)
    ensures
        r.model() == RequestModel::Run(Tool::PackageManager, remove_args(package@)),
{
    let mut a: Vec<String> = Vec::new();
    a.push(text("-R"));
    a.push(text("--noconfirm"));
    a.push(text(package));
    assert(a.deep_view() =~= remove_args(package@));
    package_manager(a)
}

pub fn update_request() -> (r: Request)
    ensures
        r.model() == RequestModel::Run(Tool::PackageManager, update_args()),
{
    let mut a: Vec<String> = Vec::new();
    a.push(text("-Syu"));
    a.push(text("--noconfirm"));
    assert(a.deep_view() =~= update_args());
    package_manager(a)
}

pub fn export_app_request(name: &str) -> (r: Request)
    ensures
        r.model() == RequestModel::Run(Tool::Exporter, export_app_args(name@)),
{
    let mut a: Vec<String> = Vec::new();
    a.push(text("--app"));
    a.push(text(name));
    assert(a.deep_view() =~= export_app_args(name@));
    exporter(a)
}

pub fn unexport_app_request(name: &str) -> (r: Request)
    ensures
        r.model() == RequestModel::Run(Tool::Exporter, unexport_app_args(name@)),
{
    let mut a: Vec<String> = Vec::new();
    a.push(text("--app"));
    a.push(text(name));
    a.push(text("--delete"));
    assert(a.deep_view() =~= unexport_app_args(name@));
    exporter(a)
}

pub fn export_bin_request(binary: &str, dir: &str) -> (r: Request)
    ensures
        r.model() == RequestModel::Run(Tool::Exporter, export_bin_args(binary@, dir@)),
{
    let mut a: Vec<String> = Vec::new();
    a.push(text("-b"));
    a.push(text(binary));
    a.push(text("-ep"));
    a.push(text(dir));
    assert(a.deep_view() =~= export_bin_args(binary@, dir@));
    exporter(a)
}

pub fn unexport_bin_request(binary: &str, dir: &str) -> (r: Request)
    ensures
        r.model() == RequestModel::Run(Tool::Exporter, unexport_bin_args(binary@, dir@)),
{
    let mut a: Vec<String> = Vec::new();
    a.push(text("-b"));
    a.push(text(binary));
    a.push(text("-ep"));
    a.push(text(dir));
    a.push(text("--delete"));
    assert(a.deep_view() =~= unexport_bin_args(binary@, dir@));
    exporter(a)
}

/// The host directory that exported binaries go to, under the export root.
pub fn bin_dir_of(root: &str) -> (r: String)
    ensures
        r@ == bin_dir(root@),
{
    let mut r = String::from_str(root);
    r.append("/bin");
    r
}

impl CommandHelper {
    /// The command that a first argument names: `install`/`-i`,
    /// `remove`/`-r`, `query`/`-q`, `update`/`-u`; anything else is help.
    pub fn attribute_option(command: &str) -> (r: CommandOptions)
        ensures
            r == option_named(command@),
    {
        if same_text(command, "install") || same_text(command, "-i") {
            CommandOptions::Install
        } else if same_text(command, "remove") || same_text(command, "-r") {
            CommandOptions::Remove
        } else if same_text(command, "query") || same_text(command, "-q") {
            CommandOptions::Query
        } else if same_text(command, "update") || same_text(command, "-u") {
            CommandOptions::Update
        } else {
            CommandOptions::Help
        }
    }

    /// The binaries of package `package_number`, from the output and error
    /// streams of its file-list run: an error when the error stream is not
    /// empty.
    pub fn query(&self, package_number: usize, stdout: &str, stderr: &str) -> (r: Result<
        Vec<String>,
        (),
    >)
        requires
            package_number < self.packages@.len(),
        ensures
            match query_result(self.packages@[package_number as int]@, stdout@, stderr@) {
                Ok(b) => r is Ok && r->Ok_0.deep_view() == b,
                Err(_) => r is Err,
            },
    {
        if stderr.unicode_len() > 0 {
            Err(())
        } else {
            Ok(binaries_in(self.packages[package_number].as_str(), stdout))
        }
    }

    /// The export-tool runs that publish each binary under the exported
    /// binary directory of `root`, in order.
    pub fn export_bin(&self, binaries: &Vec<String>, root: &str) -> (r: Vec<Request>)
        ensures
            r@.len() == binaries@.len(),
            forall|j: int|
                0 <= j < r@.len() ==> (#[trigger] r@[j]).model() == RequestModel::Run(
                    Tool::Exporter,
                    export_bin_args(binaries@[j]@, bin_dir(root@)),
                ),
    {
        let dir = bin_dir_of(root);
        let mut r: Vec<Request> = Vec::new();
        let mut j: usize = 0;
        while j < binaries.len()
            invariant
                j <= binaries@.len(),
                r@.len() == j,
                dir@ == bin_dir(root@),
                forall|k: int|
                    0 <= k < j ==> (#[trigger] r@[k]).model() == RequestModel::Run(
                        Tool::Exporter,
                        export_bin_args(binaries@[k]@, bin_dir(root@)),
                    ),
            decreases binaries@.len() - j,
        {
            r.push(export_bin_request(binaries[j].as_str(), dir.as_str()));
            j += 1;
        }
        r
    }
}

} // verus!
