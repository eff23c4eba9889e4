use nara::paths::{is_outside_workspace, path_components, path_file_name, starts_with, Platform};

#[test]
fn unix_components_are_normalized() {
    assert_eq!(path_components("/a//b/./c/", Platform::Unix), vec!["/", "a", "b", "c"]);
    assert_eq!(path_components("./a/b", Platform::Unix), vec![".", "a", "b"]);
    assert_eq!(path_components(".", Platform::Unix), vec!["."]);
    assert_eq!(path_components("a/../b", Platform::Unix), vec!["a", "..", "b"]);
    assert_eq!(path_components("", Platform::Unix), Vec::<String>::new());
    assert_eq!(path_components("a\\b", Platform::Unix), vec!["a\\b"]);
}

#[test]
fn windows_components_have_drive_and_both_separators() {
    assert_eq!(path_components("c:\\Users/me", Platform::Windows), vec!["C:", "/", "Users", "me"]);
    assert_eq!(path_components("C:rel", Platform::Windows), vec!["C:", "rel"]);
    assert_eq!(path_components("C:", Platform::Windows), vec!["C:"]);
}

#[test]
fn starts_with_whole_components() {
    assert!(starts_with("/a/b/c", "/a/b", Platform::Unix));
    assert!(starts_with("/a/b", "/a/b/", Platform::Unix));
    assert!(!starts_with("/a/bc", "/a/b", Platform::Unix));
    assert!(!starts_with("a/b", "/a", Platform::Unix));
}

#[test]
fn workspace_is_inside_itself() {
    assert!(!is_outside_workspace("/w", Some("/w"), Platform::Unix));
    assert!(!is_outside_workspace("C:\\w", Some("C:\\w"), Platform::Windows));
    assert!(is_outside_workspace("/w", None, Platform::Unix));
}

#[test]
fn file_names() {
    assert_eq!(path_file_name("/home/u/proj", Platform::Unix).as_deref(), Some("proj"));
    assert_eq!(path_file_name("/home/u/proj/.", Platform::Unix).as_deref(), Some("proj"));
    assert_eq!(path_file_name("/home/u/..", Platform::Unix), None);
    assert_eq!(path_file_name("/", Platform::Unix), None);
    assert_eq!(path_file_name("C:\\", Platform::Windows), None);
    assert_eq!(path_file_name("C:\\work\\nara\\", Platform::Windows).as_deref(), Some("nara"));
}

#[test]
fn entries_of_the_workspace_are_inside() {
    assert!(!is_outside_workspace("/w/file.txt", Some("/w"), Platform::Unix));
    assert!(!is_outside_workspace("C:\\w/file.txt", Some("C:\\w"), Platform::Windows));
    assert!(!is_outside_workspace("C:/x", Some("C:"), Platform::Windows));
    // Component-wise, as `Path::starts_with` compares: `..` is one more component.
    assert!(!is_outside_workspace("/w/..", Some("/w"), Platform::Unix));
}
