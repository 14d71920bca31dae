use barcode_soundboard::{
    CodeBuffer, InputEvent, KEY_0, KEY_1, KEY_7, KEY_9, KEY_ENTER, VALUE_RELEASED, VALUE_REPEATED,
};

fn press(code: u16) -> InputEvent {
    InputEvent::press(code)
}

#[test]
fn digits_are_handed_on_in_order_with_repeats() {
    let mut b = CodeBuffer::new();
    for code in [KEY_9, KEY_1, KEY_1, KEY_0, KEY_9] {
        assert_eq!(b.handle_key(press(code)), None);
    }
    assert_eq!(b.len(), 5);
    assert_eq!(b.handle_key(press(KEY_ENTER)), Some("91109".to_string()));
    assert!(b.is_empty());
}

#[test]
fn other_key_presses_leave_the_buffer() {
    let mut b = CodeBuffer::new();
    b.handle_key(press(KEY_7));
    // Escape, A, Space, Left Shift.
    for code in [1u16, 30, 57, 42] {
        assert_eq!(b.handle_key(press(code)), None);
        assert_eq!(b.len(), 1);
    }
    assert_eq!(b.handle_key(press(KEY_ENTER)), Some("7".to_string()));
}

#[test]
fn releases_and_repeats_leave_the_buffer() {
    let mut b = CodeBuffer::new();
    b.handle_key(press(KEY_1));
    assert_eq!(b.handle_key(InputEvent::key(KEY_1, VALUE_RELEASED)), None);
    assert_eq!(b.handle_key(InputEvent::key(KEY_1, VALUE_REPEATED)), None);
    assert_eq!(b.handle_key(InputEvent::key(KEY_7, VALUE_RELEASED)), None);
    assert_eq!(b.handle_key(InputEvent::key(KEY_ENTER, VALUE_RELEASED)), None);
    assert_eq!(b.handle_key(InputEvent::key(KEY_ENTER, VALUE_REPEATED)), None);
    let other_type = InputEvent { event_type: 4, code: KEY_ENTER, value: 1 };
    assert_eq!(b.handle_key(other_type), None);
    assert_eq!(b.len(), 1);
    assert_eq!(b.handle_key(press(KEY_ENTER)), Some("1".to_string()));
}

#[test]
fn terminator_always_clears() {
    let mut b = CodeBuffer::new();
    assert_eq!(b.handle_key(press(KEY_ENTER)), Some(String::new()));
    assert!(b.is_empty());
    b.handle_key(press(KEY_0));
    b.handle_key(press(KEY_0));
    assert_eq!(b.handle_key(press(KEY_ENTER)), Some("00".to_string()));
    assert!(b.is_empty());
    assert_eq!(b.handle_key(press(KEY_ENTER)), Some(String::new()));
}

#[test]
fn snapshot_returns_content_and_clears() {
    let mut b = CodeBuffer::new();
    b.append('4');
    b.append('2');
    assert_eq!(b.snapshot_and_clear(), "42");
    assert!(b.is_empty());
    assert_eq!(b.snapshot_and_clear(), "");
}

#[test]
fn long_codes_are_kept_whole() {
    let mut b = CodeBuffer::new();
    for _ in 0..1000 {
        b.handle_key(press(KEY_1));
    }
    let code = b.handle_key(press(KEY_ENTER)).unwrap();
    assert_eq!(code.len(), 1000);
    assert!(code.chars().all(|c| c == '1'));
}
