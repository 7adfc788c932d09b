use itaos::Key;

#[test]
fn key_from_ptr_rejects_null() {
    assert_eq!(Key::from_ptr(0), None);
}

#[test]
fn key_from_ptr_keeps_the_address() {
    let key = Key::from_ptr(0x7f00_1000).expect("a non-null address has a key");
    assert_eq!(key.as_ptr(), 0x7f00_1000);
    assert_eq!(key, Key::from_raw(0x7f00_1000));
    assert_eq!(key, Key::from_ptr_nn(0x7f00_1000));
}

#[test]
fn key_describes_itself_in_base_sixteen() {
    assert_eq!(Key::from_raw(0x1f).debug_string(), "Key { key: 0x1F }");
    assert_eq!(Key::from_raw(1).debug_string(), "Key { key: 0x1 }");
    assert_eq!(Key::from_raw(16).debug_string(), "Key { key: 0x10 }");
    assert_eq!(Key::from_raw(0xdead_beef).debug_string(), "Key { key: 0xDEADBEEF }");
    assert_eq!(
        Key::from_raw(usize::MAX).debug_string(),
        format!("Key {{ key: {:#X} }}", usize::MAX)
    );
}

#[test]
fn keys_are_ordered_by_address() {
    assert!(Key::from_raw(8) < Key::from_raw(9));
    assert_ne!(Key::from_raw(8), Key::from_raw(9));
}
