use dmt::commands::{CommandHelper, CommandOptions, Request, Tool};
use dmt::messages::HELP;
use dmt::session::{Event, Session, Step};

const LISTING: &str = "cmatrix /usr/\ncmatrix /usr/bin/\ncmatrix /usr/bin/cmatrix\ncmatrix /usr/share/man/man1/cmatrix.1.gz\n";

fn strings(v: &[&str]) -> Vec<String> {
    v.iter().map(|s| s.to_string()).collect()
}

fn session(option: CommandOptions, packages: &[&str]) -> Session {
    Session::new(CommandHelper { option, packages: strings(packages) }, "/t".to_string())
}

fn out(stdout: &str, stderr: &str) -> Event {
    Event::Output { stdout: stdout.to_string(), stderr: stderr.to_string() }
}

fn expect_run(step: &Step, tool: Tool, args: &[&str]) {
    match &step.request {
        Some(Request::Run(t, a)) => {
            assert_eq!(*t, tool);
            assert_eq!(a, &strings(args));
        }
        _ => panic!("expected a tool run"),
    }
}

fn expect_end(step: &Step) {
    assert!(step.request.is_none());
}

#[test]
fn install() {
    let mut s = session(CommandOptions::Install, &["cmatrix"]);
    let st = s.start();
    assert_eq!(st.messages, strings(&["> Adding package", "> Trying to install cmatrix..."]));
    expect_run(&st, Tool::PackageManager, &["-S", "--noconfirm", "cmatrix"]);
    let st = s.advance(out("resolving dependencies...\n", ""));
    assert_eq!(st.messages, strings(&["> Installing cmatrix..."]));
    expect_run(&st, Tool::PackageManager, &["-Ql", "cmatrix"]);
    let st = s.advance(out(LISTING, ""));
    assert!(st.messages.is_empty());
    expect_run(&st, Tool::Exporter, &["--app", "cmatrix"]);
    let st = s.advance(out("", "Error: cannot find any desktop files for cmatrix\n"));
    assert_eq!(st.messages, strings(&["> Not have a .desktop file"]));
    expect_run(&st, Tool::Exporter, &["-b", "/usr/bin/cmatrix", "-ep", "/t/bin"]);
    let st = s.advance(out("", ""));
    assert_eq!(st.messages, strings(&["> Exporting cmatrix...", ""]));
    expect_end(&st);
}

#[test]
fn remove() {
    let mut s = session(CommandOptions::Remove, &["cmatrix"]);
    let st = s.start();
    assert!(st.messages.is_empty());
    expect_run(&st, Tool::PackageManager, &["-Ql", "cmatrix"]);
    let st = s.advance(out("", "error: package 'cmatrix' was not found\n"));
    assert_eq!(st.messages, strings(&["> Package not added, can't remove"]));
    expect_end(&st);
}

#[test]
fn multiple_install() {
    let mut s = session(CommandOptions::Install, &["cmatrix", "cowsay"]);
    let st = s.start();
    expect_run(&st, Tool::PackageManager, &["-S", "--noconfirm", "cmatrix"]);
    let st = s.advance(out("", "warning: cmatrix-2.0 is up to date -- reinstalling\n"));
    assert_eq!(st.messages, strings(&["> Reinstalling cmatrix..."]));
    let st = s.advance(out(LISTING, ""));
    expect_run(&st, Tool::Exporter, &["--app", "cmatrix"]);
    let st = s.advance(out("exported", ""));
    assert!(st.messages.is_empty());
    expect_run(&st, Tool::Exporter, &["-b", "/usr/bin/cmatrix", "-ep", "/t/bin"]);
    let st = s.advance(out("", ""));
    assert_eq!(
        st.messages,
        strings(&["> Exporting cmatrix...", "", "> Adding package", "> Trying to install cowsay..."])
    );
    expect_run(&st, Tool::PackageManager, &["-S", "--noconfirm", "cowsay"]);
    let st = s.advance(out("resolving dependencies...\n", ""));
    expect_run(&st, Tool::PackageManager, &["-Ql", "cowsay"]);
    let st = s.advance(out("cowsay /usr/bin/\ncowsay /usr/bin/cowsay\ncowsay /usr/bin/cowthink\n", ""));
    expect_run(&st, Tool::Exporter, &["--app", "cowsay"]);
    let st = s.advance(out("", ""));
    expect_run(&st, Tool::Exporter, &["--app", "cowthink"]);
    let st = s.advance(out("", ""));
    expect_run(&st, Tool::Exporter, &["-b", "/usr/bin/cowsay", "-ep", "/t/bin"]);
    let st = s.advance(out("", ""));
    expect_run(&st, Tool::Exporter, &["-b", "/usr/bin/cowthink", "-ep", "/t/bin"]);
    let st = s.advance(out("", ""));
    assert_eq!(st.messages, strings(&["> Exporting cowthink...", ""]));
    expect_end(&st);
}

#[test]
fn install_unknown_package_reports_and_stops_on_empty_listing_error() {
    let mut s = session(CommandOptions::Install, &["nope", "cmatrix"]);
    s.start();
    let st = s.advance(out(" -> AUR package does not exist: nope\n", ""));
    assert_eq!(st.messages, strings(&["> Error adding package: > Package does not exist"]));
    expect_run(&st, Tool::PackageManager, &["-Ql", "nope"]);
    let st = s.advance(out("", "error: package 'nope' was not found\n"));
    assert!(st.messages.is_empty());
    expect_end(&st);
}

#[test]
fn install_export_bin_error_ends_run() {
    let mut s = session(CommandOptions::Install, &["cmatrix"]);
    s.start();
    s.advance(out("", ""));
    s.advance(out(LISTING, ""));
    let st = s.advance(out("", "boom"));
    assert_eq!(st.messages, strings(&["> Error exporting package: boom"]));
    let st = s.advance(out("", "denied"));
    assert_eq!(st.messages, strings(&["> Error exporting binaries: denied"]));
    expect_end(&st);
}

#[test]
fn remove_registered_package() {
    let mut s = session(CommandOptions::Remove, &["cmatrix"]);
    s.start();
    let st = s.advance(out(LISTING, ""));
    assert!(st.messages.is_empty());
    expect_run(&st, Tool::Exporter, &["--app", "cmatrix", "--delete"]);
    let st = s.advance(out("", ""));
    assert_eq!(st.messages, strings(&["> Trying to unexport binaries..."]));
    assert!(s.awaits_probe());
    match &st.request {
        Some(Request::Probe(d)) => assert_eq!(d, "/t/bin"),
        _ => panic!("expected a probe"),
    }
    let st = s.advance(Event::Probed(true));
    expect_run(&st, Tool::Exporter, &["-b", "/usr/bin/cmatrix", "-ep", "/t/bin", "--delete"]);
    let st = s.advance(out("", ""));
    assert_eq!(st.messages, strings(&["> Unexporting cmatrix...", "> Trying to remove cmatrix..."]));
    expect_run(&st, Tool::PackageManager, &["-R", "--noconfirm", "cmatrix"]);
    let st = s.advance(out("removing cmatrix...\n", ""));
    assert_eq!(st.messages, strings(&["> Bye bye cmatrix :)", ""]));
    expect_end(&st);
}

#[test]
fn remove_with_missing_dir_and_broken_dependency() {
    let mut s = session(CommandOptions::Remove, &["cmatrix"]);
    s.start();
    s.advance(out(LISTING, ""));
    s.advance(out("", ""));
    let st = s.advance(Event::Probed(false));
    assert_eq!(
        st.messages,
        strings(&["> cmatrix not exists to be unexported", "> Trying to remove cmatrix..."])
    );
    let st = s.advance(out("checking dependencies...\nremoving cmatrix breaks dependency 'cmatrix' required by x\n:: failed\n", ""));
    assert_eq!(
        st.messages,
        strings(&["removing cmatrix breaks dependency 'cmatrix' required by x"])
    );
    expect_end(&st);
}

#[test]
fn update_up_to_date_twice() {
    for _ in 0..2 {
        let mut s = session(CommandOptions::Update, &["ignored"]);
        let st = s.start();
        assert_eq!(st.messages, strings(&["> Trying to update..."]));
        expect_run(&st, Tool::PackageManager, &["-Syu", "--noconfirm"]);
        let st = s.advance(out(" there is nothing to do\n", ""));
        assert_eq!(st.messages, strings(&["> All packages are up to date <3"]));
        expect_end(&st);
    }
}

#[test]
fn update_error_is_reported() {
    let mut s = session(CommandOptions::Update, &[]);
    s.start();
    let st = s.advance(out("resolving dependencies...\n", "error: failed to sync"));
    assert_eq!(
        st.messages,
        strings(&["> Updating...", "Error updating: > error: failed to sync"])
    );
    expect_end(&st);
}

#[test]
fn zero_packages_need_one() {
    for (option, verb) in [
        (CommandOptions::Install, "install"),
        (CommandOptions::Remove, "remove"),
        (CommandOptions::Query, "query"),
    ] {
        let mut s = session(option, &[]);
        let st = s.start();
        assert_eq!(st.messages, vec![format!("> You need to specify a package to {}", verb)]);
        expect_end(&st);
    }
}

#[test]
fn query_prints_binaries() {
    let mut s = session(CommandOptions::Query, &["cowsay", "cmatrix"]);
    let st = s.start();
    expect_run(&st, Tool::PackageManager, &["-Ql", "cowsay"]);
    let st = s.advance(out("cowsay /usr/bin/\ncowsay /usr/bin/cowsay\ncowsay /usr/bin/cowthink\n", ""));
    assert_eq!(st.messages, strings(&["/usr/bin/cowsay\n/usr/bin/cowthink"]));
    expect_run(&st, Tool::PackageManager, &["-Ql", "cmatrix"]);
    let st = s.advance(out("", "error: package 'cmatrix' was not found"));
    assert_eq!(st.messages, strings(&["> Package not added, can't query"]));
    expect_end(&st);
}

#[test]
fn help_prints_usage() {
    let mut s = session(CommandOptions::Help, &[]);
    let st = s.start();
    assert_eq!(st.messages, vec![HELP.to_string()]);
    expect_end(&st);
}

#[test]
fn missing_desktop_entry_moves_to_next_binary() {
    let (mut s, st) = CommandHelper {
        option: CommandOptions::Install,
        packages: strings(&["cowsay"]),
    }
    .process("/t".to_string());
    expect_run(&st, Tool::PackageManager, &["-S", "--noconfirm", "cowsay"]);
    s.advance(out("", ""));
    s.advance(out("cowsay /usr/bin/\ncowsay /usr/bin/cowsay\ncowsay /usr/bin/cowthink\n", ""));
    let st = s.advance(out("", "cannot find any desktop files"));
    assert_eq!(st.messages, strings(&["> Not have a .desktop file"]));
    expect_run(&st, Tool::Exporter, &["--app", "cowthink"]);
    let st = s.advance(out("", "permission denied"));
    assert_eq!(st.messages, strings(&["> Error exporting package: permission denied"]));
    expect_run(&st, Tool::Exporter, &["-b", "/usr/bin/cowsay", "-ep", "/t/bin"]);
}

#[test]
fn unexport_launcher_error_goes_to_binaries() {
    let mut s = session(CommandOptions::Remove, &["cmatrix"]);
    s.start();
    s.advance(out(LISTING, ""));
    let st = s.advance(out("", "failed"));
    assert_eq!(
        st.messages,
        strings(&["> Error unexporting package: failed", "> Trying to unexport binaries..."])
    );
    let st = s.advance(Event::Probed(true));
    let st2 = s.advance(out("", "not exported"));
    assert!(st.messages.is_empty());
    assert_eq!(
        st2.messages,
        strings(&["> Package not exported, can't unexport", "> Trying to remove cmatrix..."])
    );
    expect_run(&st2, Tool::PackageManager, &["-R", "--noconfirm", "cmatrix"]);
}
