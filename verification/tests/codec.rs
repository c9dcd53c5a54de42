use sliced::codec::{encode_path, escape_unit_name, new_slice, parent_slice, str_eq, to_decimal};

#[test]
fn derive_child_slice_name() {
    assert_eq!(new_slice("user.slice", "1000"), "user-1000.slice");
}

#[test]
fn derive_child_of_root() {
    assert_eq!(new_slice("-.slice", "user"), "user.slice");
}

#[test]
fn derive_nested_child() {
    assert_eq!(new_slice("user-1000.slice", "app"), "user-1000-app.slice");
}

#[test]
fn parent_strips_last_segment() {
    assert_eq!(parent_slice("user-1000.slice"), "user.slice");
}

#[test]
fn parent_of_single_segment_is_root() {
    assert_eq!(parent_slice("user.slice"), "-.slice");
}

#[test]
fn parent_of_nested() {
    assert_eq!(parent_slice("user-1000-app.slice"), "user-1000.slice");
}

#[test]
fn encode_path_escapes_dot() {
    assert_eq!(
        encode_path("user.slice"),
        "/org/freedesktop/systemd1/unit/user_2eslice"
    );
}

#[test]
fn escape_keeps_alphanumerics_and_underscore() {
    assert_eq!(escape_unit_name("abc_XYZ9"), "abc_XYZ9");
}

#[test]
fn escape_leading_digit() {
    assert_eq!(escape_unit_name("1foo"), "_31foo");
}

#[test]
fn escape_root_slice() {
    assert_eq!(escape_unit_name("-.slice"), "_2d_2eslice");
}

#[test]
fn escape_empty_name() {
    assert_eq!(escape_unit_name(""), "");
}

#[test]
fn decimal_rendering() {
    assert_eq!(to_decimal(0), "0");
    assert_eq!(to_decimal(42), "42");
    assert_eq!(to_decimal(1000), "1000");
    assert_eq!(to_decimal(18446744073709551615), "18446744073709551615");
}

#[test]
fn string_equality() {
    assert!(str_eq("user.slice", "user.slice"));
    assert!(!str_eq("user.slice", "user.slicf"));
    assert!(!str_eq("user.slice", "user.slic"));
}
