//! The native message box: what is handed to the native call, and what its
//! return code means.
//!
//! Showing the box blocks the calling thread until the user dismisses it. The
//! native layer must have been brought up before, see [`crate::addon`]: a call
//! before that is undefined in the native layer.

use vstd::prelude::*;
use vstd::string::*;
use libc::c_int;
use crate::flags::MessageBoxFlags;
use crate::text::{c_text, to_c_text};

verus! {

/// How the user dismissed a message box.
#[derive(Clone, Copy, Debug, PartialEq, Eq, Structural)]
pub enum MessageBoxResult {
    /// No button was pressed, or the native layer gave a code it does not define.
    NoButton,
    /// Yes or OK.
    Affirmative,
    /// No or Cancel.
    Negatory,
}

impl MessageBoxResult {
    /// The meaning of a native return code: 1 is affirmative, 2 is negatory,
    /// every other code stands for no button.
    pub open spec fn of_native(code: c_int) -> MessageBoxResult {
        if code == 1 {
            MessageBoxResult::Affirmative
        } else if code == 2 {
            MessageBoxResult::Negatory
        } else {
            MessageBoxResult::NoButton
        }
    }

    /// Reads the return code of the native call. No code is an error.
    pub fn from_native(code: c_int) -> (result: MessageBoxResult)
        ensures
            result == Self::of_native(code),
    {
        match code {
            1 => MessageBoxResult::Affirmative,
            2 => MessageBoxResult::Negatory,
            _ => MessageBoxResult::NoButton,
        }
    }
}

/// The arguments of the native message box call, ready to be handed over.
///
/// `D` is the handle of the display that owns the box. The library only
/// carries it.
pub struct NativeMessageBox<D> {
    /// The owning display. `None` stands for the null handle: a box of its own.
    pub display: Option<D>,
    /// Title of the window, NUL terminated.
    pub title: Vec<u8>,
    /// Heading above the text, NUL terminated.
    pub heading: Vec<u8>,
    /// The text, NUL terminated.
    pub text: Vec<u8>,
    /// Labels of the buttons, NUL terminated. `None` stands for the null
    /// pointer: the native buttons that go with the flags.
    pub buttons: Option<Vec<u8>>,
    /// The flag word.
    pub flags: c_int,
}

/// The arguments of the native call as plain values.
pub struct MessageBoxCall<D> {
    pub display: Option<D>,
    pub title: Seq<u8>,
    pub heading: Seq<u8>,
    pub text: Seq<u8>,
    pub buttons: Option<Seq<u8>>,
    pub flags: int,
}

impl<D> View for NativeMessageBox<D> {
    type V = MessageBoxCall<D>;

    open spec fn view(&self) -> MessageBoxCall<D> {
        MessageBoxCall {
            display: self.display,
            title: self.title@,
            heading: self.heading@,
            text: self.text@,
            buttons: match self.buttons {
                Some(labels) => Some(labels@),
                None => None,
            },
            flags: self.flags as int,
        }
    }
}

/// What the native call receives for a request to show a box: the display as
/// given, each text cut at its first NUL and terminated, and the bit pattern
/// of the flags.
pub open spec fn message_box_call<D>(
    display: Option<D>,
    title: Seq<u8>,
    heading: Seq<u8>,
    text: Seq<u8>,
    buttons: Option<Seq<u8>>,
    flags: u32,
) -> MessageBoxCall<D> {
    MessageBoxCall {
        display,
        title: c_text(title),
        heading: c_text(heading),
        text: c_text(text),
        buttons: match buttons {
            Some(labels) => Some(c_text(labels)),
            None => None,
        },
        flags: flags as int,
    }
}

/// The UTF-8 bytes of an optional text.
pub open spec fn optional_bytes(text: Option<&str>) -> Option<Seq<u8>> {
    match text {
        Some(t) => Some(t.spec_bytes()),
        None => None,
    }
}

impl<D> NativeMessageBox<D> {
    /// Prepares the native call for a request to show a box.
    pub fn new(
        display: Option<D>,
        title: &str,
        heading: &str,
        text: &str,
        buttons: Option<&str>,
        flags: MessageBoxFlags,
    ) -> (call: NativeMessageBox<D>)
        ensures
            call@ == message_box_call(
                display,
                title.spec_bytes(),
                heading.spec_bytes(),
                text.spec_bytes(),
                optional_bytes(buttons),
                flags@,
            ),
    {
        let labels = match buttons {
            Some(b) => Some(to_c_text(b)),
            None => None,
        };
        let bits = flags.get();
        NativeMessageBox {
            display,
            title: to_c_text(title),
            heading: to_c_text(heading),
            text: to_c_text(text),
            buttons: labels,
            flags: bits as c_int,
        }
    }
}

/// Shows a native message box and says how the user dismissed it.
///
/// `native` is the native call. It receives the prepared arguments once, and
/// whatever code it returns is read by [`MessageBoxResult::from_native`].
pub fn show_native_message_box<D, F>(
    display: Option<D>,
    title: &str,
    heading: &str,
    text: &str,
    buttons: Option<&str>,
    flags: MessageBoxFlags,
    native: F,
) -> (result: MessageBoxResult) where F: FnOnce(NativeMessageBox<D>) -> c_int
    requires
        forall|call: NativeMessageBox<D>|
            call@ == message_box_call(
                display,
                title.spec_bytes(),
                heading.spec_bytes(),
                text.spec_bytes(),
                optional_bytes(buttons),
                flags@,
            ) ==> #[trigger] call_requires(native, (call,)),
    ensures
        exists|call: NativeMessageBox<D>, code: c_int|
            {
                &&& call@ == message_box_call(
                    display,
                    title.spec_bytes(),
                    heading.spec_bytes(),
                    text.spec_bytes(),
                    optional_bytes(buttons),
                    flags@,
                )
                &&& #[trigger] call_ensures(native, (call,), code)
                &&& result == MessageBoxResult::of_native(code)
            },
{
    let call = NativeMessageBox::new(display, title, heading, text, buttons, flags);
    let code = native(call);
    MessageBoxResult::from_native(code)
}

} // verus!
