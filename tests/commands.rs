use dmt::completion::{add_suggestions, command_names, complete, remove_suggestions, Completion};
use dmt::classify::{
    binaries_in, binary_name_of, breakage_report, install, query,
    remove, update, join_lines, lacks_desktop_file, resolved_updates,
};
use dmt::commands::{CommandHelper, CommandOptions, Request, Tool};
use dmt::text::{chars_of, line_ranges, same_text, str_contains};

const LISTING: &str = "cmatrix /usr/\ncmatrix /usr/bin/\ncmatrix /usr/bin/cmatrix\ncmatrix /usr/share/man/man1/cmatrix.1.gz\n";

fn strings(v: &[&str]) -> Vec<String> {
    v.iter().map(|s| s.to_string()).collect()
}

#[test]
fn attribute_option_names() {
    assert_eq!(CommandHelper::attribute_option("install"), CommandOptions::Install);
    assert_eq!(CommandHelper::attribute_option("-i"), CommandOptions::Install);
    assert_eq!(CommandHelper::attribute_option("remove"), CommandOptions::Remove);
    assert_eq!(CommandHelper::attribute_option("-r"), CommandOptions::Remove);
    assert_eq!(CommandHelper::attribute_option("query"), CommandOptions::Query);
    assert_eq!(CommandHelper::attribute_option("-q"), CommandOptions::Query);
    assert_eq!(CommandHelper::attribute_option("update"), CommandOptions::Update);
    assert_eq!(CommandHelper::attribute_option("-u"), CommandOptions::Update);
    assert_eq!(CommandHelper::attribute_option("help"), CommandOptions::Help);
    assert_eq!(CommandHelper::attribute_option("-h"), CommandOptions::Help);
    assert_eq!(CommandHelper::attribute_option("installs"), CommandOptions::Help);
    assert_eq!(CommandHelper::attribute_option(""), CommandOptions::Help);
}

#[test]
fn query_drops_first_binary_line() {
    assert_eq!(binaries_in("cmatrix", LISTING), strings(&["/usr/bin/cmatrix"]));
}

#[test]
fn query_keeps_order_of_binary_lines() {
    let out = "cowsay /usr/bin/\ncowsay /usr/bin/cowsay\ncowsay /usr/share/cows/\ncowsay /usr/bin/cowthink\n";
    assert_eq!(binaries_in("cowsay", out), strings(&["/usr/bin/cowsay", "/usr/bin/cowthink"]));
}

#[test]
fn query_single_binary_line_gives_nothing() {
    assert_eq!(binaries_in("x", "x /usr/bin/x\n"), Vec::<String>::new());
    assert_eq!(binaries_in("x", ""), Vec::<String>::new());
}

#[test]
fn query_trims_repeated_prefix() {
    let out = "a /usr/bin/\na a /usr/bin/b\r\n";
    assert_eq!(binaries_in("a", out), strings(&["/usr/bin/b"]));
}

#[test]
fn query_error_stream_fails() {
    let helper = CommandHelper { option: CommandOptions::Query, packages: strings(&["cmatrix"]) };
    assert_eq!(helper.query(0, LISTING, ""), Ok(strings(&["/usr/bin/cmatrix"])));
    assert_eq!(helper.query(0, "", "error: package 'cmatrix' was not found\n"), Err(()));
    assert_eq!(
        query("cmatrix", "", "error: not found"),
        Err("error: not found".to_string())
    );
}

#[test]
fn install_classification() {
    assert_eq!(
        install(" -> AUR package does not exist: nope\n", ""),
        Err("> Package does not exist".to_string())
    );
    assert_eq!(
        install("resolving dependencies...\n", "warning: cmatrix-2.0 is up to date -- reinstalling\n"),
        Ok("resolving dependencies...\n".to_string())
    );
    assert_eq!(install("", "error: failed"), Err("> error: failed".to_string()));
    assert_eq!(install("done", ""), Ok("done".to_string()));
}

#[test]
fn remove_classification() {
    let broken = "checking dependencies...\nerror: removing x breaks dependency 'x' required by y\n:: failed\n";
    assert_eq!(remove(broken, ""), Err(broken.to_string()));
    assert_eq!(remove("ok", "warning: something"), Ok("ok".to_string()));
    assert_eq!(remove("", "error: target not found: x"), Err("> error: target not found: x".to_string()));
    assert_eq!(remove("removed", ""), Ok("removed".to_string()));
    assert_eq!(
        breakage_report(broken),
        "error: removing x breaks dependency 'x' required by y".to_string()
    );
    assert_eq!(breakage_report("a\nb\nc\nd"), "bc".to_string());
    assert_eq!(breakage_report("breaks dependency"), String::new());
}

#[test]
fn update_classification() {
    assert_eq!(update(" there is nothing to do\n", ""), Ok(" there is nothing to do\n".to_string()));
    assert_eq!(update("", "warning: old"), Ok(String::new()));
    assert_eq!(update("", "error: db"), Err("> error: db".to_string()));
    assert!(resolved_updates("resolving dependencies...\n"));
    assert!(!resolved_updates(" there is nothing to do\n"));
}

#[test]
fn binary_names_and_desktop_errors() {
    assert_eq!(binary_name_of("/usr/bin/cmatrix"), "cmatrix".to_string());
    assert_eq!(binary_name_of("/usr/bin//usr/bin/x"), "x".to_string());
    assert_eq!(binary_name_of("/opt/x"), "/opt/x".to_string());
    assert!(lacks_desktop_file("Error: cannot find any desktop files for cmatrix"));
    assert!(!lacks_desktop_file("Error: other"));
}

#[test]
fn export_bin_requests() {
    let helper = CommandHelper { option: CommandOptions::Install, packages: strings(&["cowsay"]) };
    let bins = strings(&["/usr/bin/cowsay", "/usr/bin/cowthink"]);
    let reqs = helper.export_bin(&bins, "/home/u/tunnel");
    assert_eq!(reqs.len(), 2);
    match &reqs[1] {
        Request::Run(Tool::Exporter, args) => {
            assert_eq!(args, &strings(&["-b", "/usr/bin/cowthink", "-ep", "/home/u/tunnel/bin"]))
        }
        _ => panic!("expected an export run"),
    }
}

#[test]
fn text_primitives() {
    assert_eq!(chars_of("añb"), vec!['a', 'ñ', 'b']);
    assert!(str_contains("abc", ""));
    assert!(str_contains("abc", "bc"));
    assert!(!str_contains("abc", "cb"));
    assert!(!str_contains("ab", "abc"));
    assert!(same_text("x", "x"));
    assert!(!same_text("x", "xy"));
    let s = chars_of("a\r\nb\n\nc");
    let r = line_ranges(&s);
    assert_eq!(r, vec![(0, 1), (3, 4), (5, 5), (6, 7)]);
    assert_eq!(line_ranges(&chars_of("x\n")), vec![(0, 1)]);
    assert_eq!(line_ranges(&chars_of("")), Vec::<(usize, usize)>::new());
    assert_eq!(join_lines(&strings(&["a", "b", "c"])), "a\nb\nc".to_string());
    assert_eq!(join_lines(&Vec::new()), String::new());
}

#[test]
fn completion_choices() {
    assert_eq!(complete(1, "dmt"), Completion::Commands);
    assert_eq!(complete(2, "install"), Completion::Installable);
    assert_eq!(complete(2, "-r"), Completion::Installed);
    assert_eq!(complete(2, "update"), Completion::Nothing);
    assert_eq!(complete(3, "install"), Completion::Nothing);
    assert_eq!(command_names().len(), 5);
    let installed = "cmatrix\ncowsay\ncmake\n";
    assert_eq!(remove_suggestions("cm", installed), strings(&["cmake"]));
    let installable = "extra/cmatrix 2.0-3\nextra/cmake 3.2\n  \ncore/bash 5\nextra/cmark 1 [installed]\n";
    assert_eq!(add_suggestions("cm", installable), strings(&["extra/cmake", "extra/cmark"]));
    assert_eq!(add_suggestions("", "a b\n \t\nc\n"), strings(&["", "c"]));
}
