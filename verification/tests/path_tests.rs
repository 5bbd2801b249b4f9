use soft_serve::path::{is_within, join, strip_leading_separator, SEPARATOR};
use std::path::Path;

#[test]
fn separator_is_a_slash() {
    assert_eq!(SEPARATOR, '/');
}

#[test]
fn strip_removes_one_leading_separator() {
    assert_eq!(strip_leading_separator("/a.txt"), Some("a.txt"));
    assert_eq!(strip_leading_separator("/sub/"), Some("sub/"));
    assert_eq!(strip_leading_separator("/../etc/passwd"), Some("../etc/passwd"));
}

#[test]
fn strip_of_the_root_request_is_empty() {
    assert_eq!(strip_leading_separator("/"), Some(""));
}

#[test]
fn strip_keeps_a_second_separator() {
    assert_eq!(strip_leading_separator("//etc/passwd"), Some("/etc/passwd"));
}

#[test]
fn strip_rejects_an_empty_request_path() {
    assert_eq!(strip_leading_separator(""), None);
}

#[test]
fn strip_rejects_a_request_path_without_leading_separator() {
    assert_eq!(strip_leading_separator("a.txt"), None);
    assert_eq!(strip_leading_separator("*"), None);
    assert_eq!(strip_leading_separator("é/"), None);
}

#[test]
fn strip_counts_characters_not_bytes() {
    assert_eq!(strip_leading_separator("/é.txt"), Some("é.txt"));
}

#[test]
fn join_puts_one_separator_between() {
    assert_eq!(join("/srv/www", "a.txt"), "/srv/www/a.txt");
    assert_eq!(join("/srv/www", "sub/b.txt"), "/srv/www/sub/b.txt");
}

#[test]
fn join_adds_no_separator_after_one() {
    assert_eq!(join("/srv/www/", "a.txt"), "/srv/www/a.txt");
    assert_eq!(join("/", "a.txt"), "/a.txt");
}

#[test]
fn join_with_nothing_ends_in_a_separator() {
    assert_eq!(join("/srv/www", ""), "/srv/www/");
    assert_eq!(join("/srv/www/", ""), "/srv/www/");
}

#[test]
fn join_of_an_absolute_path_replaces_the_base() {
    assert_eq!(join("/srv/www", "/etc/passwd"), "/etc/passwd");
    assert_eq!(join("", "/etc/passwd"), "/etc/passwd");
}

#[test]
fn join_to_an_empty_base_adds_no_separator() {
    assert_eq!(join("", "a.txt"), "a.txt");
    assert_eq!(join("", ""), "");
}

#[test]
fn join_resolves_nothing() {
    assert_eq!(join("/srv/www", "../etc/passwd"), "/srv/www/../etc/passwd");
    assert_eq!(join("/srv/www", "./a//b/"), "/srv/www/./a//b/");
}

#[test]
fn join_agrees_with_the_standard_library() {
    let bases = ["/srv/www", "/srv/www/", "/", "", "srv", "/sérv/ŵ"];
    let rels = ["a.txt", "", "/etc/passwd", "../x", "sub/", "index.html", "//x", "é"];
    for base in bases {
        for rel in rels {
            let expected = Path::new(base).join(rel);
            assert_eq!(Some(join(base, rel).as_str()), expected.to_str(), "{base:?} {rel:?}");
        }
    }
}

#[test]
fn within_holds_of_the_root_itself() {
    assert!(is_within("/srv/www", "/srv/www"));
    assert!(is_within("/", "/"));
}

#[test]
fn within_holds_of_what_lies_below() {
    assert!(is_within("/srv/www", "/srv/www/a.txt"));
    assert!(is_within("/srv/www", "/srv/www/sub/index.html"));
    assert!(is_within("/", "/etc/passwd"));
}

#[test]
fn within_matches_whole_segments_only() {
    assert!(!is_within("/srv/www", "/srv/www2/a.txt"));
    assert!(!is_within("/srv/www", "/srv/wwwa.txt"));
    assert!(!is_within("/srv/www", "/srv/ww"));
}

#[test]
fn within_fails_outside_the_root() {
    assert!(!is_within("/srv/www", "/etc/passwd"));
    assert!(!is_within("/srv/www", "/srv"));
    assert!(!is_within("/srv/www", "/"));
    assert!(!is_within("/srv/www", "/www"));
}

#[test]
fn within_ignores_repeated_and_trailing_separators() {
    assert!(is_within("/srv/www/", "/srv/www"));
    assert!(is_within("/srv/www", "/srv/www/"));
    assert!(is_within("/srv//www", "/srv/www///a.txt"));
}

#[test]
fn within_tells_absolute_from_relative() {
    assert!(!is_within("/srv/www", "srv/www/a.txt"));
    assert!(!is_within("srv/www", "/srv/www/a.txt"));
    assert!(is_within("srv/www", "srv/www/a.txt"));
    assert!(is_within("", "a.txt"));
    assert!(!is_within("", "/a.txt"));
}

#[test]
fn within_resolves_nothing() {
    assert!(is_within("/srv/www", "/srv/www/../etc/passwd"));
    assert!(!is_within("/srv/www", "/srv/./www"));
}

#[test]
fn within_compares_characters() {
    assert!(is_within("/sérv/ŵ", "/sérv/ŵ/ü.txt"));
    assert!(!is_within("/sérv/ŵ", "/serv/ŵ/ü.txt"));
}

#[test]
fn within_agrees_with_the_standard_library_on_canonical_paths() {
    let roots = ["/srv/www", "/", "/srv", "/srv/www/sub"];
    let locations =
        ["/srv/www", "/srv/www/a.txt", "/srv/www2", "/etc/passwd", "/", "/srv", "/srv/www/sub/x"];
    for root in roots {
        for location in locations {
            let expected = Path::new(location).starts_with(Path::new(root));
            assert_eq!(is_within(root, location), expected, "{root:?} {location:?}");
        }
    }
}

#[test]
fn joined_relative_path_is_within_its_base() {
    let bases = ["/srv/www", "/srv/www/", "/", "", "srv"];
    let rels = ["a.txt", "", "../x", "sub/", "index.html", "é"];
    for base in bases {
        for rel in rels {
            assert!(is_within(base, &join(base, rel)), "{base:?} {rel:?}");
        }
    }
}
