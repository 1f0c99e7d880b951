use std::cell::Cell;

use allegro_dialog::{
    show_native_message_box, AddonState, DialogAddon, InitError, MessageBoxFlags,
    MessageBoxResult, NativeMessageBox,
};

#[test]
fn two_threads_acquire_and_the_second_shows_a_box() {
    let native_inits = Cell::new(0);
    let mut process_initialized = false;
    let mut spawned_on_a = false;
    let mut spawned_on_b = false;

    // Thread A acquires.
    let mut seen_by_a =
        AddonState { initialized: process_initialized, spawned_on_this_thread: spawned_on_a };
    let first = DialogAddon::init(&mut seen_by_a, || {
        native_inits.set(native_inits.get() + 1);
        1
    });
    process_initialized = seen_by_a.initialized;
    spawned_on_a = seen_by_a.spawned_on_this_thread;
    assert!(first.is_ok());

    // Thread A acquires again.
    let mut seen_by_a =
        AddonState { initialized: process_initialized, spawned_on_this_thread: spawned_on_a };
    let second = DialogAddon::init(&mut seen_by_a, || {
        native_inits.set(native_inits.get() + 1);
        1
    });
    process_initialized = seen_by_a.initialized;
    spawned_on_a = seen_by_a.spawned_on_this_thread;
    assert_eq!(second.err(), Some(InitError::AlreadyAcquiredOnThread));

    // Thread B acquires: the process is initialised already.
    let mut seen_by_b =
        AddonState { initialized: process_initialized, spawned_on_this_thread: spawned_on_b };
    let third = DialogAddon::init(&mut seen_by_b, || {
        native_inits.set(native_inits.get() + 1);
        1
    });
    process_initialized = seen_by_b.initialized;
    spawned_on_b = seen_by_b.spawned_on_this_thread;
    assert!(third.is_ok());
    assert_eq!(native_inits.get(), 1);
    assert!(process_initialized && spawned_on_a && spawned_on_b);

    // Thread B shows a box, and the native layer returns 1.
    let result = show_native_message_box(
        None,
        "T",
        "H",
        "Body",
        None,
        MessageBoxFlags::question(),
        |call: NativeMessageBox<u64>| {
            assert_eq!(call.display, None);
            assert_eq!(call.title, b"T\0".to_vec());
            assert_eq!(call.heading, b"H\0".to_vec());
            assert_eq!(call.text, b"Body\0".to_vec());
            assert_eq!(call.buttons, None);
            assert_eq!(call.flags, 16);
            1
        },
    );
    assert_eq!(result, MessageBoxResult::Affirmative);
}
