use portlight::naming::{class_name, class_name_from_bytes};

#[test]
fn class_name_hex_without_padding() {
    let name = class_name_from_bytes("window-", &vec![0, 5, 16, 255, 171]);
    assert_eq!(String::from_utf8(name).unwrap(), "window-0510ffab");
}

#[test]
fn class_name_empty_random() {
    let name = class_name_from_bytes("message-", &vec![]);
    assert_eq!(name, b"message-".to_vec());
}

#[test]
fn class_names_are_fresh() {
    let a = class_name("window-").unwrap();
    let b = class_name("window-").unwrap();
    assert!(a.starts_with(b"window-"));
    assert!(a.len() >= 7 + 16 && a.len() <= 7 + 32);
    assert!(a[7..].iter().all(|c| c.is_ascii_hexdigit() && !c.is_ascii_uppercase()));
    // Sixteen random bytes: two equal names would mean the source is not random.
    assert_ne!(a, b);
}
