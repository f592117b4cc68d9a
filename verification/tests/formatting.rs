use fullpath::uri::{as_uri, format_path};

#[test]
fn test_as_uri_unix() {
    let path = "/home/user/file.txt";
    let uri = as_uri(path, false);
    assert_eq!(uri, "file:///home/user/file.txt");
}

#[test]
fn as_uri_always_has_scheme_prefix() {
    assert!(as_uri("/home/user/file.txt", false).starts_with("file://"));
    assert!(as_uri("C:\\Users\\me\\file.txt", true).starts_with("file://"));
    assert!(as_uri("", false).starts_with("file://"));
}

#[test]
fn as_uri_posix_is_exact_concatenation() {
    let path = "/var/log/syslog";
    assert_eq!(as_uri(path, false), format!("file://{}", path));
}

#[test]
fn as_uri_windows_adds_slash_and_turns_separators() {
    let uri = as_uri("C:\\Users\\me\\file.txt", true);
    assert_eq!(uri, "file:///C:/Users/me/file.txt");
}

#[test]
fn as_uri_empty_path() {
    assert_eq!(as_uri("", false), "file://");
    assert_eq!(as_uri("", true), "file:///");
}

#[test]
fn format_plain_returns_path_unchanged() {
    assert_eq!(format_path("/home/user/file.txt", false, false), "/home/user/file.txt");
    assert_eq!(format_path("C:\\Users\\me\\file.txt", false, true), "C:\\Users\\me\\file.txt");
}

#[test]
fn format_uri_matches_as_uri() {
    assert_eq!(format_path("/home/user/file.txt", true, false), "file:///home/user/file.txt");
    assert_eq!(format_path("C:\\Users\\me\\file.txt", true, true), "file:///C:/Users/me/file.txt");
}

#[test]
fn round_trip_recovers_path_posix() {
    let path = "/home/user/file.txt";
    let uri = as_uri(path, false);
    let stripped = uri.strip_prefix("file://").unwrap();
    assert_eq!(stripped, path);
}

#[test]
fn round_trip_recovers_path_windows() {
    let path = "C:\\Users\\me\\file.txt";
    let uri = as_uri(path, true);
    let stripped = uri.strip_prefix("file:///").unwrap();
    let restored = stripped.replace("/", "\\");
    assert_eq!(restored, path);
}

#[test]
fn formatting_twice_is_identical() {
    let first = format_path("/home/user/file.txt", true, false);
    let second = format_path("/home/user/file.txt", true, false);
    assert_eq!(first, second);
    let first_plain = format_path("/home/user/file.txt", false, false);
    let second_plain = format_path("/home/user/file.txt", false, false);
    assert_eq!(first_plain, second_plain);
}
