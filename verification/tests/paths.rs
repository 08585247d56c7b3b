use hexed::file_source::expand_path;

#[test]
fn plain_path_is_returned_unchanged() {
    let raw = "/var/log/data.bin".to_string();
    assert_eq!(expand_path(&raw), raw);
}

#[test]
fn relative_plain_path_is_returned_unchanged() {
    let raw = "notes.txt".to_string();
    assert_eq!(expand_path(&raw), raw);
}

#[test]
fn empty_path_stays_empty() {
    assert_eq!(expand_path(&String::new()), "");
}

#[test]
fn tilde_expansion_yields_a_usable_path() {
    // with a home directory the tilde is replaced; without one it is kept —
    // either way the result is non-empty
    let expanded = expand_path(&"~".to_string());
    assert!(!expanded.is_empty());
}

#[test]
fn unset_variable_yields_the_empty_path() {
    let raw = "$HEXED_TEST_VARIABLE_THAT_IS_NEVER_SET".to_string();
    assert_eq!(expand_path(&raw), "");
}
