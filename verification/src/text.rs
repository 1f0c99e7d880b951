//! Text on its way to the native layer.
//!
//! The native layer reads a text up to its first NUL byte. A text is handed
//! over as its bytes up to, and without, the first NUL among them, followed by
//! one terminating NUL. So a text that holds a NUL is cut there, always in the
//! same way, and no text is refused.

use vstd::prelude::*;
use vstd::string::*;

verus! {

/// How many bytes stand before the first NUL of `bytes`: all of them if it
/// holds none.
pub open spec fn text_len(bytes: Seq<u8>) -> nat
    decreases bytes.len(),
{
    if bytes.len() == 0 || bytes[0] == 0 {
        0
    } else {
        1 + text_len(bytes.skip(1))
    }
}

/// The bytes that stand for `bytes` at the native call.
pub open spec fn c_text(bytes: Seq<u8>) -> Seq<u8> {
    bytes.take(text_len(bytes) as int).push(0)
}

/// Whether `out` is `bytes` cut at its first NUL and terminated: `out` ends
/// in a NUL and holds no other, what stands before that NUL is a prefix of
/// `bytes`, and the prefix ends only where `bytes` ends or has a NUL.
pub open spec fn is_c_text_of(out: Seq<u8>, bytes: Seq<u8>) -> bool {
    &&& 1 <= out.len() <= bytes.len() + 1
    &&& out.last() == 0
    &&& forall|i: int| 0 <= i < out.len() - 1 ==> out[i] == bytes[i] && out[i] != 0
    &&& out.len() - 1 < bytes.len() ==> bytes[out.len() - 1] == 0
}

/// A position that only non-NUL bytes precede, and at which `bytes` ends or
/// holds a NUL, is the length of the text.
pub proof fn lemma_text_len_at(bytes: Seq<u8>, n: int)
    requires
        0 <= n <= bytes.len(),
        forall|i: int| 0 <= i < n ==> bytes[i] != 0,
        n < bytes.len() ==> bytes[n] == 0,
    ensures
        text_len(bytes) == n,
    decreases n,
{
    if n > 0 {
        let rest = bytes.skip(1);
        assert forall|i: int| 0 <= i < n - 1 implies rest[i] != 0 by {
            assert(rest[i] == bytes[i + 1]);
        }
        lemma_text_len_at(rest, n - 1);
    }
}

/// The length of the text is within `bytes`, only non-NUL bytes precede it,
/// and `bytes` ends or holds a NUL there.
pub proof fn lemma_text_len_bounds(bytes: Seq<u8>)
    ensures
        text_len(bytes) <= bytes.len(),
        forall|i: int| 0 <= i < text_len(bytes) ==> bytes[i] != 0,
        text_len(bytes) < bytes.len() ==> bytes[text_len(bytes) as int] == 0,
    decreases bytes.len(),
{
    if !(bytes.len() == 0 || bytes[0] == 0) {
        let rest = bytes.skip(1);
        lemma_text_len_bounds(rest);
        assert forall|i: int| 0 <= i < text_len(bytes) implies bytes[i] != 0 by {
            if i > 0 {
                assert(rest[i - 1] == bytes[i]);
            }
        }
        if text_len(bytes) < bytes.len() {
            assert(rest[text_len(rest) as int] == bytes[text_len(bytes) as int]);
        }
    }
}

/// [`c_text`] is the one sequence that [`is_c_text_of`] accepts.
pub proof fn lemma_c_text_unique(out: Seq<u8>, bytes: Seq<u8>)
    ensures
        is_c_text_of(out, bytes) <==> out == c_text(bytes),
{
    lemma_text_len_bounds(bytes);
    if is_c_text_of(out, bytes) {
        lemma_text_len_at(bytes, out.len() - 1);
        assert(out =~= c_text(bytes));
    }
}

/// Encodes `text` for the native call: its UTF-8 bytes up to the first NUL,
/// then the terminating NUL.
pub fn to_c_text(text: &str) -> (out: Vec<u8>)
    ensures
        out@ == c_text(text.spec_bytes()),
        is_c_text_of(out@, text.spec_bytes()),
{
    let bytes = text.as_bytes();
    let mut out: Vec<u8> = Vec::new();
    let mut i: usize = 0;
    while i < bytes.len() && bytes[i] != 0
        invariant
            i <= bytes@.len(),
            out@ == bytes@.take(i as int),
            forall|j: int| 0 <= j < i ==> bytes@[j] != 0,
        decreases bytes@.len() - i,
    {
        out.push(bytes[i]);
        i += 1;
        assert(out@ =~= bytes@.take(i as int));
    }
    proof {
        lemma_text_len_at(bytes@, i as int);
    }
    out.push(0);
    proof {
        lemma_c_text_unique(out@, bytes@);
    }
    out
}

} // verus!
