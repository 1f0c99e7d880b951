use std::cell::Cell;

use allegro_dialog::{
    show_native_message_box, MessageBoxFlags, MessageBoxResult, NativeMessageBox,
    MESSAGEBOX_OK_CANCEL, MESSAGEBOX_WARN,
};

#[test]
fn native_code_zero_is_no_button() {
    assert_eq!(MessageBoxResult::from_native(0), MessageBoxResult::NoButton);
}

#[test]
fn native_code_one_is_affirmative() {
    assert_eq!(MessageBoxResult::from_native(1), MessageBoxResult::Affirmative);
}

#[test]
fn native_code_two_is_negatory() {
    assert_eq!(MessageBoxResult::from_native(2), MessageBoxResult::Negatory);
}

#[test]
fn any_other_native_code_is_no_button() {
    for code in [3, 4, 100, -1, -2, i32::MAX, i32::MIN] {
        assert_eq!(MessageBoxResult::from_native(code), MessageBoxResult::NoButton);
    }
}

#[test]
fn call_without_display_carries_none() {
    let call: NativeMessageBox<u64> =
        NativeMessageBox::new(None, "T", "H", "Body", None, MessageBoxFlags::question());
    assert_eq!(call.display, None);
    assert_eq!(call.title, vec![84, 0]);
    assert_eq!(call.heading, vec![72, 0]);
    assert_eq!(call.text, vec![66, 111, 100, 121, 0]);
    assert_eq!(call.buttons, None);
    assert_eq!(call.flags, 16);
}

#[test]
fn call_with_display_carries_the_handle() {
    let call = NativeMessageBox::new(
        Some(0xD15u64),
        "Title",
        "Heading",
        "Text",
        Some("Yes|No"),
        MessageBoxFlags::yes_no(),
    );
    assert_eq!(call.display, Some(0xD15));
    assert_eq!(call.title, b"Title\0".to_vec());
    assert_eq!(call.heading, b"Heading\0".to_vec());
    assert_eq!(call.text, b"Text\0".to_vec());
    assert_eq!(call.buttons, Some(b"Yes|No\0".to_vec()));
    assert_eq!(call.flags, 8);
}

#[test]
fn call_carries_a_borrowed_display() {
    let display = String::from("display");
    let call = NativeMessageBox::new(Some(&display), "", "", "", None, MessageBoxFlags::zero());
    assert_eq!(call.display, Some(&display));
    assert_eq!(call.flags, 0);
}

#[test]
fn call_cuts_each_text_at_its_first_nul() {
    let call: NativeMessageBox<u64> = NativeMessageBox::new(
        None,
        "ti\0tle",
        "\0heading",
        "text\0",
        Some("OK\0Cancel"),
        MessageBoxFlags::zero(),
    );
    assert_eq!(call.title, b"ti\0".to_vec());
    assert_eq!(call.heading, b"\0".to_vec());
    assert_eq!(call.text, b"text\0".to_vec());
    assert_eq!(call.buttons, Some(b"OK\0".to_vec()));
}

#[test]
fn empty_buttons_are_not_absent_buttons() {
    let call: NativeMessageBox<u64> =
        NativeMessageBox::new(None, "T", "H", "B", Some(""), MessageBoxFlags::zero());
    assert_eq!(call.buttons, Some(vec![0]));
}

#[test]
fn flags_reach_the_native_call_as_the_or_of_their_bits() {
    let seen = Cell::new(-1);
    let flags = MessageBoxFlags::warn() | MessageBoxFlags::ok_cancel();
    let result = show_native_message_box(
        None,
        "T",
        "H",
        "Body",
        None,
        flags,
        |call: NativeMessageBox<u64>| {
            seen.set(call.flags);
            0
        },
    );
    assert_eq!(seen.get(), (MESSAGEBOX_WARN | MESSAGEBOX_OK_CANCEL) as i32);
    assert_eq!(seen.get(), 5);
    assert_eq!(result, MessageBoxResult::NoButton);
}

#[test]
fn absent_display_reaches_the_native_call_as_none() {
    let calls = Cell::new(0);
    let result = show_native_message_box(
        None,
        "T",
        "H",
        "Body",
        None,
        MessageBoxFlags::error(),
        |call: NativeMessageBox<u64>| {
            calls.set(calls.get() + 1);
            assert!(call.display.is_none());
            assert!(call.buttons.is_none());
            2
        },
    );
    assert_eq!(calls.get(), 1);
    assert_eq!(result, MessageBoxResult::Negatory);
}

#[test]
fn show_hands_the_prepared_call_over_once_and_reads_the_code() {
    for (code, expected) in [
        (0, MessageBoxResult::NoButton),
        (1, MessageBoxResult::Affirmative),
        (2, MessageBoxResult::Negatory),
        (3, MessageBoxResult::NoButton),
        (-1, MessageBoxResult::NoButton),
    ] {
        let calls = Cell::new(0);
        let result = show_native_message_box(
            Some(7u64),
            "Quit",
            "Unsaved changes",
            "Save before quitting?",
            Some("Save|Discard"),
            MessageBoxFlags::question() | MessageBoxFlags::yes_no(),
            |call: NativeMessageBox<u64>| {
                calls.set(calls.get() + 1);
                assert_eq!(call.display, Some(7));
                assert_eq!(call.title, b"Quit\0".to_vec());
                assert_eq!(call.heading, b"Unsaved changes\0".to_vec());
                assert_eq!(call.text, b"Save before quitting?\0".to_vec());
                assert_eq!(call.buttons, Some(b"Save|Discard\0".to_vec()));
                assert_eq!(call.flags, 24);
                code
            },
        );
        assert_eq!(calls.get(), 1);
        assert_eq!(result, expected);
    }
}
