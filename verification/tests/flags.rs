use libinput_scroll_shim::is_truthy;

#[test]
fn one_activates_a_flag() {
    assert!(is_truthy(b"1"));
}

#[test]
fn true_in_any_ascii_case_activates_a_flag() {
    assert!(is_truthy(b"true"));
    assert!(is_truthy(b"TRUE"));
    assert!(is_truthy(b"True"));
    assert!(is_truthy(b"tRuE"));
}

#[test]
fn other_values_leave_a_flag_inactive() {
    assert!(!is_truthy(b""));
    assert!(!is_truthy(b"0"));
    assert!(!is_truthy(b"2"));
    assert!(!is_truthy(b"yes"));
    assert!(!is_truthy(b"tru"));
    assert!(!is_truthy(b"truee"));
    assert!(!is_truthy(b"false"));
    assert!(!is_truthy(b" true"));
}
