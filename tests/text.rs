use numake::text::{join_from, path_string};

fn words(parts: &[&str]) -> Vec<String> {
    parts.iter().map(|p| p.to_string()).collect()
}

#[test]
fn joins_with_single_separators() {
    assert_eq!(join_from(&words(&["build", "--release", "x"]), 0, " "), "build --release x");
}

#[test]
fn joins_from_an_index() {
    assert_eq!(join_from(&words(&["numake", "test", "all"]), 1, " "), "test all");
}

#[test]
fn joins_nothing_to_empty_text() {
    assert_eq!(join_from(&words(&["numake"]), 1, " "), "");
    assert_eq!(join_from(&words(&[]), 0, "/"), "");
}

#[test]
fn path_text_of_root_is_a_slash() {
    assert_eq!(path_string(&words(&[])), "/");
}

#[test]
fn path_text_joins_components() {
    assert_eq!(path_string(&words(&["home", "ann", "make.nu"])), "/home/ann/make.nu");
}
