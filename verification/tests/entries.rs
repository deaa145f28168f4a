use fabric_rust::entries::find_duplicate;
use fabric_rust::registration::check_entries;
use fabric_rust::SdkError;

#[test]
fn find_duplicate_reports_the_first_name_seen_again() {
    // "b" is seen again (at position 2) before "a" is (at position 3).
    assert_eq!(find_duplicate(&["a", "b", "b", "a"]), Some("b"));
    assert_eq!(find_duplicate(&["init", "client_init", "init"]), Some("init"));
    assert_eq!(find_duplicate(&["only"]), None);
    assert_eq!(find_duplicate(&["", ""]), Some(""));
    assert_eq!(find_duplicate(&["ä", "a", "ä"]), Some("ä"));
}

#[test]
fn find_duplicate_compares_text_not_addresses() {
    let owned = String::from("init");
    let names = ["init", owned.as_str()];
    assert_eq!(find_duplicate(&names), Some("init"));
}

fn message_of(r: Result<(), SdkError>) -> Option<String> {
    match r {
        Ok(()) => None,
        Err(e) => Some(e.to_string()),
    }
}

#[test]
fn check_entries_requires_a_registrar() {
    assert_eq!(
        message_of(check_entries(true, &["init"])).as_deref(),
        Some("fabric_rust_register called with a null registrar")
    );
}

#[test]
fn check_entries_rejects_a_repeated_name() {
    assert_eq!(
        message_of(check_entries(false, &["init", "tick", "init"])).as_deref(),
        Some("duplicate entrypoint name `init` in register_entrypoints!")
    );
}

#[test]
fn check_entries_accepts_distinct_names() {
    assert!(check_entries(false, &["init", "client_init"]).is_ok());
    assert!(check_entries(false, &[]).is_ok());
}
