use muse_outdated::manifest::Package;
use muse_outdated::response::{
    build_muse_message, build_muse_response, find_line_number, Dependency, DependencyKind,
    MuseResponse, Outdated,
};
use muse_outdated::run::{conclude, error_report, run, RunError};

fn package(name: &str, version: &str, line: u32) -> Package {
    Package { name: name.to_string(), version: version.to_string(), line }
}

fn dependency(name: &str, project: &str, latest: &str) -> Dependency {
    Dependency {
        name: name.to_string(),
        project: project.to_string(),
        compat: "---".to_string(),
        latest: latest.to_string(),
        kind: DependencyKind::Normal,
    }
}

fn fields(response: &MuseResponse) -> (&str, &str, &str, u32) {
    (&response.type_of, &response.message, &response.file, response.line)
}

const MANIFEST: &str =
    "[package]\nname = \"p\"\n\n[dependencies]\nbaz = \"1.2.3\"\nqux = \"0.1\"\n";

#[test]
fn message_names_the_dependency_and_both_versions() {
    let message = build_muse_message(&dependency("baz", "1.2.3", "3.0.0"));
    assert_eq!(message, "### baz\nVersion is at 1.2.3 but could be upgrade to 3.0.0");
}

#[test]
fn message_of_empty_fields() {
    let message = build_muse_message(&dependency("", "", ""));
    assert_eq!(message, "### \nVersion is at  but could be upgrade to ");
}

#[test]
fn line_of_a_declared_dependency() {
    let packages = vec![package("a", "1", 4), package("baz", "1.2.3", 7)];
    assert_eq!(find_line_number(&dependency("baz", "1.2.3", "3.0.0"), &packages), 7);
    assert_eq!(find_line_number(&dependency("a", "1", "2"), &packages), 4);
}

#[test]
fn undeclared_dependency_is_on_line_zero() {
    let packages = vec![package("a", "1", 4), package("baz", "1.2.3", 7)];
    assert_eq!(find_line_number(&dependency("other", "1.2.3", "2"), &packages), 0);
    assert_eq!(find_line_number(&dependency("baz", "1.2.4", "2"), &packages), 0);
    assert_eq!(find_line_number(&dependency("baz", " 1.2.3", "2"), &packages), 0);
    assert_eq!(find_line_number(&dependency("serde_derive->syn", "1", "2"), &packages), 0);
    assert_eq!(find_line_number(&dependency("baz", "1.2.3", "2"), &Vec::new()), 0);
}

#[test]
fn last_of_several_declarations_gives_the_line() {
    let packages =
        vec![package("a", "1", 3), package("b", "1", 5), package("a", "1", 9), package("a", "2", 12)];
    assert_eq!(find_line_number(&dependency("a", "1", "2"), &packages), 9);
}

#[test]
fn one_finding_for_each_dependency_in_order() {
    let outdated = Outdated {
        crate_name: "p".to_string(),
        dependencies: vec![
            dependency("qux", "0.1", "0.2"),
            dependency("missing", "1", "2"),
            dependency("baz", "1.2.3", "3.0.0"),
            dependency("qux", "0.1", "0.2"),
        ],
    };
    let packages = vec![package("baz", "1.2.3", 4), package("qux", "0.1", 5)];
    let responses = build_muse_response(outdated, packages);
    assert_eq!(responses.len(), 4);
    assert_eq!(
        fields(&responses[0]),
        ("Out of date", "### qux\nVersion is at 0.1 but could be upgrade to 0.2", "Cargo.toml", 5)
    );
    assert_eq!(
        fields(&responses[1]),
        ("Out of date", "### missing\nVersion is at 1 but could be upgrade to 2", "Cargo.toml", 0)
    );
    assert_eq!(
        fields(&responses[2]),
        ("Out of date", "### baz\nVersion is at 1.2.3 but could be upgrade to 3.0.0", "Cargo.toml", 4)
    );
    assert_eq!(fields(&responses[3]), fields(&responses[0]));
}

#[test]
fn no_dependencies_give_no_findings() {
    let outdated = Outdated { crate_name: "foobar".to_string(), dependencies: Vec::new() };
    assert_eq!(build_muse_response(outdated, vec![package("a", "1", 1)]).len(), 0);
}

#[test]
fn every_kind_is_reported() {
    let mut development = dependency("baz", "1.2.3", "3.0.0");
    development.kind = DependencyKind::Development;
    let mut build = dependency("qux", "0.1", "0.2");
    build.kind = DependencyKind::Build;
    let outdated =
        Outdated { crate_name: "p".to_string(), dependencies: vec![development, build] };
    let responses = build_muse_response(outdated, Vec::new());
    assert_eq!(responses.len(), 2);
    assert_eq!(responses[0].type_of, "Out of date");
    assert_eq!(responses[1].type_of, "Out of date");
}

#[test]
fn error_stream_is_reported_and_output_ignored() {
    let stderr = b"error: no such subcommand\n".to_vec();
    for stdout in [b"".to_vec(), b"{\"crate_name\":\"p\",\"dependencies\":[]}".to_vec(), vec![0xff]] {
        let outcome = run(MANIFEST, &stdout, &stderr, |_text: String| -> Option<Outdated> {
            panic!("the output must not be read")
        });
        let responses = outcome.unwrap();
        assert_eq!(responses.len(), 1);
        assert_eq!(fields(&responses[0]), ("stderr", "error: no such subcommand\n", "N/A", 0));
    }
}

#[test]
fn error_stream_text_is_decoded() {
    let stderr = "caf\u{e9} \u{2028}\u{1f980}".as_bytes().to_vec();
    let outcome = run("", &Vec::new(), &stderr, |_text: String| None);
    let responses = outcome.unwrap();
    assert_eq!(responses.len(), 1);
    assert_eq!(responses[0].message, "caf\u{e9} \u{2028}\u{1f980}");
}

#[test]
fn undecodable_error_stream_is_one_finding_too() {
    for stdout in [b"".to_vec(), b"{\"crate_name\":\"p\",\"dependencies\":[]}".to_vec(), vec![0xff]] {
        let outcome = run(MANIFEST, &stdout, &vec![0xff], |_text: String| -> Option<Outdated> {
            panic!("the output must not be read")
        });
        let responses = outcome.unwrap();
        assert_eq!(responses.len(), 1);
        assert_eq!(fields(&responses[0]), ("stderr", "\u{fffd}", "N/A", 0));
    }
}

#[test]
fn undecodable_bytes_of_the_error_stream_are_replaced() {
    let stderr = vec![b'a', 0xff, b'b', 0xc3, 0xa9, 0xc3];
    let outcome = run(MANIFEST, &Vec::new(), &stderr, |_text: String| None);
    let responses = outcome.unwrap();
    assert_eq!(responses.len(), 1);
    assert_eq!(fields(&responses[0]), ("stderr", "a\u{fffd}b\u{e9}\u{fffd}", "N/A", 0));
}

#[test]
fn error_report_hands_the_text_on() {
    let response = error_report(&b"warning: unused\n".to_vec());
    assert_eq!(fields(&response), ("stderr", "warning: unused\n", "N/A", 0));
    let response = error_report(&vec![0xf0, 0x9f, 0xa6, 0x80]);
    assert_eq!(fields(&response), ("stderr", "\u{1f980}", "N/A", 0));
    let response = error_report(&vec![0xf0, 0x9f, 0xa6]);
    assert_eq!(fields(&response), ("stderr", "\u{fffd}", "N/A", 0));
    let response = error_report(&Vec::new());
    assert_eq!(fields(&response), ("stderr", "", "N/A", 0));
}

#[test]
fn undecodable_output_fails() {
    let outcome = run(MANIFEST, &vec![0xc3, 0x28], &Vec::new(), |_text: String| {
        Some(Outdated { crate_name: String::new(), dependencies: Vec::new() })
    });
    assert_eq!(outcome.unwrap_err(), RunError::UnreadableOutput);
}

#[test]
fn unparsed_output_fails() {
    let outcome = run(MANIFEST, &b"No such file or directory".to_vec(), &Vec::new(), |text: String| {
        assert_eq!(text, "No such file or directory");
        None
    });
    assert_eq!(outcome.unwrap_err(), RunError::MalformedOutput);
    assert_eq!(conclude(None, Vec::new()).unwrap_err(), RunError::MalformedOutput);
}

#[test]
fn output_is_decoded_parsed_and_located() {
    let stdout = "r\u{e9}sum\u{e9}".as_bytes().to_vec();
    let outcome = run(MANIFEST, &stdout, &Vec::new(), |text: String| {
        assert_eq!(text, "r\u{e9}sum\u{e9}");
        Some(Outdated {
            crate_name: "p".to_string(),
            dependencies: vec![dependency("qux", "0.1", "0.2"), dependency("baz", "1.2.3", "3.0.0"),
                dependency("baz", "1.2", "3.0.0")],
        })
    });
    let responses = outcome.unwrap();
    assert_eq!(responses.len(), 3);
    assert_eq!(
        fields(&responses[0]),
        ("Out of date", "### qux\nVersion is at 0.1 but could be upgrade to 0.2", "Cargo.toml", 5)
    );
    assert_eq!(responses[1].line, 4);
    assert_eq!(responses[2].line, 0);
}

#[test]
fn conclude_builds_the_findings_of_a_report() {
    let outdated =
        Outdated { crate_name: "p".to_string(), dependencies: vec![dependency("a", "1", "2")] };
    let responses = conclude(Some(outdated), vec![package("a", "1", 6)]).unwrap();
    assert_eq!(responses.len(), 1);
    assert_eq!(
        fields(&responses[0]),
        ("Out of date", "### a\nVersion is at 1 but could be upgrade to 2", "Cargo.toml", 6)
    );
}
