use doc_file::path::{resolve_path, PathLiteral};

fn literal(text: &str) -> PathLiteral {
    PathLiteral::new_opt(text).unwrap()
}

#[test]
fn a_path_without_nul_is_accepted_and_kept_as_written() {
    let path = PathLiteral::new_opt("docs/intro.md").unwrap();
    assert_eq!(path.as_str(), "docs/intro.md");
}

#[test]
fn the_empty_path_is_accepted() {
    assert_eq!(literal("").as_str(), "");
}

#[test]
fn a_path_with_nul_is_refused() {
    assert_eq!(PathLiteral::new_opt("docs/\0intro.md"), None);
    assert_eq!(PathLiteral::new_opt("\0"), None);
    assert_eq!(PathLiteral::new_opt("intro.md\0"), None);
}

#[test]
fn a_path_with_characters_beyond_ascii_is_accepted() {
    assert_eq!(literal("docs/übersicht.md").as_str(), "docs/übersicht.md");
}

#[test]
fn resolves_against_the_directory_of_the_source_file() {
    assert_eq!(resolve_path("/a/b/lib.rs", &literal("c/d.md")), "/a/b/c/d.md");
}

#[test]
fn resolves_a_bare_name_next_to_the_source_file() {
    assert_eq!(resolve_path("src/lib.rs", &literal("simple.markdown")), "src/simple.markdown");
}

#[test]
fn a_source_file_without_directory_leaves_the_path_as_written() {
    assert_eq!(resolve_path("lib.rs", &literal("c/d.md")), "c/d.md");
}

#[test]
fn a_source_file_in_the_root_resolves_below_the_root() {
    assert_eq!(resolve_path("/lib.rs", &literal("d.md")), "/d.md");
}

#[test]
fn an_absolute_path_replaces_the_directory() {
    assert_eq!(resolve_path("/a/b/lib.rs", &literal("/etc/motd")), "/etc/motd");
}

#[test]
fn parent_components_are_kept_for_the_file_system() {
    assert_eq!(resolve_path("/a/b/lib.rs", &literal("../README.md")), "/a/b/../README.md");
}

#[test]
fn the_empty_path_resolves_to_the_directory() {
    assert_eq!(resolve_path("/a/b/lib.rs", &literal("")), "/a/b/");
}

#[test]
fn directories_beyond_ascii_are_measured_in_characters() {
    assert_eq!(resolve_path("/größe/é/lib.rs", &literal("ü.md")), "/größe/é/ü.md");
}

#[test]
fn a_source_path_that_ends_in_a_separator_is_its_own_directory() {
    assert_eq!(resolve_path("/a/b/", &literal("c.md")), "/a/b/c.md");
}
