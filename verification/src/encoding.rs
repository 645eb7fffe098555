//! Which strings can be handed to an authenticator call: those that a NUL
//! can terminate, since they hold none themselves.

use vstd::prelude::*;
use vstd::string::StringSliceAdditionalSpecFns;
use vstd::utf8::encode_utf8;

verus! {

/// Whether a byte string holds a NUL byte anywhere.
pub open spec fn has_nul(s: Seq<u8>) -> bool {
    exists|i: int| 0 <= i < s.len() && s[i] == 0u8
}

/// Whether a text can be written as a NUL-terminated string: its bytes hold
/// no NUL.
pub open spec fn is_encodable(text: Seq<char>) -> bool {
    !has_nul(encode_utf8(text))
}

/// Whether an optional text is absent or can be written as a NUL-terminated
/// string.
pub open spec fn is_encodable_if_any(text: Option<Seq<char>>) -> bool {
    match text {
        Some(text) => is_encodable(text),
        None => true,
    }
}

/// Tells whether `bytes` holds a NUL byte.
pub fn contains_nul(bytes: &[u8]) -> (found: bool)
    ensures
        found == has_nul(bytes@),
{
    let n: usize = bytes.len();
    let mut i: usize = 0;
    while i < n
        invariant
            i <= n,
            n == bytes@.len(),
            forall|j: int| 0 <= j < i ==> bytes@[j] != 0u8,
        decreases n - i,
    {
        if bytes[i] == 0u8 {
            assert(bytes@[i as int] == 0u8);
            return true;
        }
        i += 1;
    }
    false
}

/// Tells whether `text` can be written as a NUL-terminated string.
pub fn can_encode(text: &str) -> (ok: bool)
    ensures
        ok == is_encodable(text@),
{
    !contains_nul(text.as_bytes())
}

} // verus!
