//! Guarded, once-per-process bring-up of the native dialog addon, and the
//! values that cross into and out of its message box call.
//!
//! The library decides and prepares; it makes no native call itself. The
//! caller holds the two flags of [`AddonState`] and the lock that guards
//! them, and hands the native calls in as functions.

pub mod addon;
pub mod flags;
pub mod message_box;
pub mod process;
pub mod text;

pub use addon::{AddonState, DialogAddon, InitError, InitStep};
pub use flags::{
    MessageBoxFlags, MESSAGEBOX_ALL, MESSAGEBOX_ERROR, MESSAGEBOX_OK_CANCEL, MESSAGEBOX_QUESTION,
    MESSAGEBOX_WARN, MESSAGEBOX_YES_NO,
};
pub use message_box::{show_native_message_box, MessageBoxResult, NativeMessageBox};
