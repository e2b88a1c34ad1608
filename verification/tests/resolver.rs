use zest::resolver::{
    candidate, candidate_for, is_within, join, location, resolve, root_relative, Resolution,
};

#[test]
fn one_leading_separator_is_taken_off() {
    assert_eq!(root_relative("/a/b"), "a/b");
    assert_eq!(root_relative("//a"), "/a");
    assert_eq!(root_relative("a"), "a");
    assert_eq!(root_relative("/"), "");
    assert_eq!(root_relative(""), "");
}

#[test]
fn joining_under_a_root() {
    assert_eq!(join("/srv/www", "a.txt"), "/srv/www/a.txt");
    assert_eq!(join("/srv/www/", "a.txt"), "/srv/www/a.txt");
    assert_eq!(join("/srv/www", ""), "/srv/www/");
    assert_eq!(join("/srv/www/", ""), "/srv/www/");
    assert_eq!(join("", "a.txt"), "a.txt");
    assert_eq!(join("/", "a.txt"), "/a.txt");
    assert_eq!(join("/srv/www", "/etc/passwd"), "/etc/passwd");
    assert_eq!(join(".", "404.html"), "./404.html");
}

#[test]
fn joining_agrees_with_std_paths() {
    for (root, relative) in [
        ("/srv/www", "a.txt"),
        ("/srv/www/", "a/b"),
        ("/srv/www", ""),
        ("", "a"),
        ("/", "a"),
        ("/srv", "/etc"),
        (".", "404.html"),
    ] {
        let expected = std::path::Path::new(root).join(relative);
        assert_eq!(join(root, relative), expected.to_str().unwrap());
    }
}

#[test]
fn candidate_decodes_and_drops_the_query() {
    assert_eq!(candidate("/srv/www", "/a%20b.txt?x=1"), "/srv/www/a b.txt");
    assert_eq!(candidate("/srv/www", "/missing.txt"), "/srv/www/missing.txt");
    assert_eq!(candidate("/srv/www", "/"), "/srv/www/");
    assert_eq!(candidate("/srv/www", "/sub/?sort=name"), "/srv/www/sub/");
}

#[test]
fn candidate_decodes_before_it_cuts_the_query() {
    assert_eq!(candidate("/srv/www", "/a%3Fb"), "/srv/www/a");
}

#[test]
fn candidate_of_an_absolute_target_leaves_the_root() {
    assert_eq!(candidate("/srv/www", "//etc/passwd"), "/etc/passwd");
    assert_eq!(candidate("/srv/www", "/%2Fetc/passwd"), "/etc/passwd");
    assert_eq!(candidate("/srv/www", "/../secret"), "/srv/www/../secret");
    assert_eq!(candidate("/srv/www", "/%2e%2e/secret"), "/srv/www/../secret");
}

#[test]
fn target_that_is_not_utf8_names_the_root() {
    assert_eq!(candidate("/srv/www", "/%ff%fe"), "/srv/www/");
    assert_eq!(candidate_for("/srv/www", None), "/srv/www/");
}

#[test]
fn candidate_from_a_decoded_target() {
    assert_eq!(candidate_for("/srv/www", Some("a b?c".to_string())), "/srv/www/a b");
    assert_eq!(candidate_for("/srv/www", Some(String::new())), "/srv/www/");
}

#[test]
fn percent_signs_without_digits_stay() {
    assert_eq!(candidate("/r", "/100%"), "/r/100%");
    assert_eq!(candidate("/r", "/a%zzb"), "/r/a%zzb");
    assert_eq!(candidate("/r", "/a+b"), "/r/a+b");
}

#[test]
fn containment_goes_by_components() {
    assert!(is_within("/srv/www", "/srv/www"));
    assert!(is_within("/srv/www", "/srv/www/a.txt"));
    assert!(is_within("/srv/www", "/srv/www/sub/a.txt"));
    assert!(!is_within("/srv/www", "/srv/www2"));
    assert!(!is_within("/srv/www", "/srv/www2/a.txt"));
    assert!(!is_within("/srv/www", "/srv"));
    assert!(!is_within("/srv/www", "/etc/passwd"));
    assert!(is_within("/", "/etc/passwd"));
    assert!(is_within("/", "/"));
    assert!(is_within("/srv/www/", "/srv/www/a"));
}

#[test]
fn containment_agrees_with_std_paths() {
    for (root, path) in [
        ("/srv/www", "/srv/www"),
        ("/srv/www", "/srv/www/a"),
        ("/srv/www", "/srv/www2"),
        ("/srv/www", "/srv"),
        ("/", "/etc"),
        ("/a/b", "/a/bc/d"),
        ("/a/b", "/a/b/c/d"),
    ] {
        assert_eq!(is_within(root, path), std::path::Path::new(path).starts_with(root));
    }
}

#[test]
fn location_is_the_part_below_the_root() {
    assert_eq!(location("/srv/www", "/srv/www/sub/a.txt"), "sub/a.txt");
    assert_eq!(location("/srv/www", "/srv/www"), "");
    assert_eq!(location("/srv/www/", "/srv/www/a"), "a");
    assert_eq!(location("/", "/etc/passwd"), "etc/passwd");
    assert_eq!(location("/srv/www", "/etc/passwd"), "/etc/passwd");
    assert_eq!(location("/srv/www", "/srv/www2"), "/srv/www2");
}

#[test]
fn path_without_canonical_form_is_not_found() {
    assert_eq!(
        resolve("/srv/www", None, "/srv/www/404.html".to_string(), false),
        Resolution::NotFound { error_page: "/srv/www/404.html".to_string() }
    );
    assert_eq!(
        resolve("/srv/www", None, "/srv/www/404.html".to_string(), true),
        Resolution::NotFound { error_page: "/srv/www/404.html".to_string() }
    );
}

#[test]
fn path_under_the_root_is_found() {
    assert_eq!(
        resolve("/srv/www", Some("/srv/www/a.txt".to_string()), "e".to_string(), false),
        Resolution::Found { path: "/srv/www/a.txt".to_string() }
    );
    assert_eq!(
        resolve("/srv/www", Some("/srv/www".to_string()), "e".to_string(), false),
        Resolution::Found { path: "/srv/www".to_string() }
    );
}

#[test]
fn path_outside_the_root_is_refused() {
    assert_eq!(
        resolve("/srv/www", Some("/etc/passwd".to_string()), "e".to_string(), false),
        Resolution::Outside
    );
    assert_eq!(
        resolve("/srv/www", Some("/srv/www2/a".to_string()), "e".to_string(), false),
        Resolution::Outside
    );
}

#[test]
fn relaxed_containment_serves_outside_paths() {
    assert_eq!(
        resolve("/srv/www", Some("/etc/passwd".to_string()), "e".to_string(), true),
        Resolution::Found { path: "/etc/passwd".to_string() }
    );
}
