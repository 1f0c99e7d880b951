//! The style flags of a native message box.
//!
//! A flag set is a bit pattern. Each flag is one bit, sets are joined with `|`,
//! and the pattern goes to the native call as it is.

use vstd::prelude::*;

verus! {

/// Bit of the warning icon.
pub const MESSAGEBOX_WARN: u32 = 1;

/// Bit of the error icon.
pub const MESSAGEBOX_ERROR: u32 = 2;

/// Bit of the OK / Cancel button pair.
pub const MESSAGEBOX_OK_CANCEL: u32 = 4;

/// Bit of the Yes / No button pair.
pub const MESSAGEBOX_YES_NO: u32 = 8;

/// Bit of the question icon.
pub const MESSAGEBOX_QUESTION: u32 = 16;

/// All five flag bits together.
pub const MESSAGEBOX_ALL: u32 = 31;

/// Whether `bits` sets nothing outside the five flag bits.
pub open spec fn only_flag_bits(bits: u32) -> bool {
    bits & !MESSAGEBOX_ALL == 0
}

/// A set of message box flags.
///
/// Its view is the bit pattern. The pattern never holds a bit outside
/// [`MESSAGEBOX_ALL`]: a set is built from the five flags and `|` alone.
#[derive(Clone, Copy, Debug)]
pub struct MessageBoxFlags {
    bits: u32,
}

impl View for MessageBoxFlags {
    type V = u32;

    closed spec fn view(&self) -> u32 {
        self.bits
    }
}

impl MessageBoxFlags {
    #[verifier::type_invariant]
    spec fn inv(self) -> bool {
        only_flag_bits(self.bits)
    }

    /// The empty set.
    pub fn zero() -> (flags: MessageBoxFlags)
        ensures
            flags@ == 0,
    {
        assert(only_flag_bits(0)) by (bit_vector);
        MessageBoxFlags { bits: 0 }
    }

    /// The warning icon.
    pub fn warn() -> (flags: MessageBoxFlags)
        ensures
            flags@ == MESSAGEBOX_WARN,
    {
        assert(only_flag_bits(MESSAGEBOX_WARN)) by (bit_vector);
        MessageBoxFlags { bits: MESSAGEBOX_WARN }
    }

    /// The error icon.
    pub fn error() -> (flags: MessageBoxFlags)
        ensures
            flags@ == MESSAGEBOX_ERROR,
    {
        assert(only_flag_bits(MESSAGEBOX_ERROR)) by (bit_vector);
        MessageBoxFlags { bits: MESSAGEBOX_ERROR }
    }

    /// The OK / Cancel button pair.
    pub fn ok_cancel() -> (flags: MessageBoxFlags)
        ensures
            flags@ == MESSAGEBOX_OK_CANCEL,
    {
        assert(only_flag_bits(MESSAGEBOX_OK_CANCEL)) by (bit_vector);
        MessageBoxFlags { bits: MESSAGEBOX_OK_CANCEL }
    }

    /// The Yes / No button pair.
    pub fn yes_no() -> (flags: MessageBoxFlags)
        ensures
            flags@ == MESSAGEBOX_YES_NO,
    {
        assert(only_flag_bits(MESSAGEBOX_YES_NO)) by (bit_vector);
        MessageBoxFlags { bits: MESSAGEBOX_YES_NO }
    }

    /// The question icon.
    pub fn question() -> (flags: MessageBoxFlags)
        ensures
            flags@ == MESSAGEBOX_QUESTION,
    {
        assert(only_flag_bits(MESSAGEBOX_QUESTION)) by (bit_vector);
        MessageBoxFlags { bits: MESSAGEBOX_QUESTION }
    }

    /// The bit pattern of the set.
    pub fn get(&self) -> (bits: u32)
        ensures
            bits == self@,
            only_flag_bits(bits),
            bits <= MESSAGEBOX_ALL,
    {
        proof {
            use_type_invariant(self);
            lemma_flag_bits_bounded(self.bits);
        }
        self.bits
    }
}

/// A pattern within the five flag bits is at most [`MESSAGEBOX_ALL`].
pub proof fn lemma_flag_bits_bounded(bits: u32)
    requires
        only_flag_bits(bits),
    ensures
        bits <= MESSAGEBOX_ALL,
{
    assert(bits & !31u32 == 0 ==> bits <= 31) by (bit_vector);
}

impl vstd::std_specs::ops::BitOrSpecImpl for MessageBoxFlags {
    open spec fn obeys_bitor_spec() -> bool {
        true
    }

    open spec fn bitor_req(self, rhs: MessageBoxFlags) -> bool {
        true
    }

    closed spec fn bitor_spec(self, rhs: MessageBoxFlags) -> MessageBoxFlags {
        MessageBoxFlags { bits: self.bits | rhs.bits }
    }
}

impl core::ops::BitOr for MessageBoxFlags {
    type Output = MessageBoxFlags;

    /// The union of two sets: the bitwise OR of their patterns.
    fn bitor(self, e: MessageBoxFlags) -> (r: MessageBoxFlags)
        ensures
            r@ == self@ | e@,
    {
        proof {
            use_type_invariant(self);
            use_type_invariant(e);
            let a = self.bits;
            let b = e.bits;
            assert(a & !31u32 == 0 && b & !31u32 == 0 ==> (a | b) & !31u32 == 0) by (bit_vector);
        }
        MessageBoxFlags { bits: self.bits | e.bits }
    }
}

impl vstd::std_specs::ops::BitAndSpecImpl for MessageBoxFlags {
    open spec fn obeys_bitand_spec() -> bool {
        true
    }

    open spec fn bitand_req(self, rhs: MessageBoxFlags) -> bool {
        true
    }

    open spec fn bitand_spec(self, rhs: MessageBoxFlags) -> bool {
        self@ & rhs@ != 0
    }
}

impl core::ops::BitAnd for MessageBoxFlags {
    type Output = bool;

    /// Whether the two sets share a flag.
    fn bitand(self, e: MessageBoxFlags) -> (r: bool)
        ensures
            r == (self@ & e@ != 0),
    {
        self.bits & e.bits != 0
    }
}

} // verus!
