//! The lines that a run reports to its user, as texts.
use crate::commands::CommandOptions;
use vstd::prelude::*;
use vstd::string::*;

verus! {

broadcast use vstd::string::group_string_axioms;

/// The word that names a command which works on packages.
pub open spec fn verb_of(o: CommandOptions) -> Seq<char> {
    match o {
        CommandOptions::Install => "install"@,
        CommandOptions::Remove => "remove"@,
        _ => "query"@,
    }
}

pub open spec fn need_package_msg(verb: Seq<char>) -> Seq<char> {
    "> You need to specify a package to "@ + verb
}

pub open spec fn adding_msg() -> Seq<char> {
    "> Adding package"@
}

pub open spec fn trying_install_msg(package: Seq<char>) -> Seq<char> {
    "> Trying to install "@ + package + "..."@
}

pub open spec fn reinstalling_msg(package: Seq<char>) -> Seq<char> {
    "> Reinstalling "@ + package + "..."@
}

pub open spec fn installing_msg(package: Seq<char>) -> Seq<char> {
    "> Installing "@ + package + "..."@
}

pub open spec fn install_error_msg(e: Seq<char>) -> Seq<char> {
    "> Error adding package: "@ + e
}

pub open spec fn no_desktop_msg() -> Seq<char> {
    "> Not have a .desktop file"@
}

pub open spec fn export_app_error_msg(e: Seq<char>) -> Seq<char> {
    "> Error exporting package: "@ + e
}

pub open spec fn unexport_app_error_msg(e: Seq<char>) -> Seq<char> {
    "> Error unexporting package: "@ + e
}

pub open spec fn export_bin_error_msg(e: Seq<char>) -> Seq<char> {
    "> Error exporting binaries: "@ + e
}

pub open spec fn exporting_msg(name: Seq<char>) -> Seq<char> {
    "> Exporting "@ + name + "..."@
}

pub open spec fn not_added_msg(verb: Seq<char>) -> Seq<char> {
    "> Package not added, can't "@ + verb
}

pub open spec fn trying_unexport_msg() -> Seq<char> {
    "> Trying to unexport binaries..."@
}

pub open spec fn missing_dir_msg(name: Seq<char>) -> Seq<char> {
    "> "@ + name + " not exists to be unexported"@
}

pub open spec fn unexporting_msg(name: Seq<char>) -> Seq<char> {
    "> Unexporting "@ + name + "..."@
}

pub open spec fn not_exported_msg() -> Seq<char> {
    "> Package not exported, can't unexport"@
}

pub open spec fn trying_remove_msg(package: Seq<char>) -> Seq<char> {
    "> Trying to remove "@ + package + "..."@
}

pub open spec fn remove_error_msg(e: Seq<char>) -> Seq<char> {
    "> Error removing package: "@ + e
}

pub open spec fn bye_msg(package: Seq<char>) -> Seq<char> {
    "> Bye bye "@ + package + " :)"@
}

pub open spec fn trying_update_msg() -> Seq<char> {
    "> Trying to update..."@
}

pub open spec fn updating_msg() -> Seq<char> {
    "> Updating..."@
}

pub open spec fn up_to_date_msg() -> Seq<char> {
    "> All packages are up to date <3"@
}

pub open spec fn update_error_msg(e: Seq<char>) -> Seq<char> {
    "Error updating: "@ + e
}

pub open spec fn help_msg() -> Seq<char> {
    HELP@
}

/// The usage text.
pub const HELP: &'static str = "
Usage: dmt [OPTION] [PACKAGE]

Options:
install, -i   Add package to distrotunnel
remove, -r    Remove package from distrotunnel
query, -q     List the binaries of a package
update, -u    Update distrotunnel
help, -h      Show this help
";

/// `a`, then `mid`, then `b`.
pub fn framed(a: &str, mid: &str, b: &str) -> (r: String)
    ensures
        r@ == a@ + mid@ + b@,
{
    let mut r = String::from_str(a);
    r.append(mid);
    r.append(b);
    r
}

/// `a` followed by `b`.
pub fn prefixed(a: &str, b: &str) -> (r: String)
    ensures
        r@ == a@ + b@,
{
    let mut r = String::from_str(a);
    r.append(b);
    r
}

pub fn verb(o: CommandOptions) -> (r: &'static str)
    ensures
        r@ == verb_of(o),
{
    match o {
        CommandOptions::Install => "install",
        CommandOptions::Remove => "remove",
        _ => "query",
    }
}

} // verus!
