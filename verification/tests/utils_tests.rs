use rustwide::utils::escape_path;
use rustwide::utils::improve_remove_error;
use rustwide::utils::strip_verbatim_from_prefix;

#[test]
fn strip_verbatim() {
    let suite = vec![
        (r"C:\Users\carl", None),
        (r"\Users\carl", None),
        (r"\\?\C:\Users\carl", Some(r"C:\")),
        (r"\\?\Users\carl", Some("Users")),
    ];

    for (input, output) in suite {
        let stripped = strip_verbatim_from_prefix(input);
        assert_eq!(stripped.as_deref(), output);
    }
}

#[test]
fn custom_remove_error() {
    let expected = "failed to remove 'test/path' : Kind(PermissionDenied)";
    let tested = improve_remove_error("Kind(PermissionDenied)".to_string(), "test/path").message();
    assert_eq!(expected, tested);
}

#[test]
fn escape_reserved_characters() {
    assert_eq!(escape_path(b"https://example.com/a b"), "https%3A%2F%2Fexample.com%2Fa%20b");
    assert_eq!(escape_path(b"plain-name_1.0"), "plain-name_1.0");
    assert_eq!(escape_path(b"<>:\"|?*\\ "), "%3C%3E%3A%22%7C%3F%2A%5C%20");
}

#[test]
fn escape_distinguishes_names() {
    // The escape set makes distinct URLs land in distinct cache folders.
    let a = escape_path(b"https://one.example/index");
    let b = escape_path(b"https://two.example/index");
    assert_ne!(a, b);
}
