//! The holder of the user's PIN.

use crate::encoding::{contains_nul, has_nul};
use crate::error::Error;
use vstd::prelude::*;
use vstd::string::StringSliceAdditionalSpecFns;
use zeroize::Zeroize;

verus! {

/// The byte string of `n` zero bytes.
pub open spec fn zeros(n: nat) -> Seq<u8> {
    Seq::new(n, |i: int| 0u8)
}

/// Overwrites every byte of `bytes` with zero, by `Zeroize::zeroize` of the
/// `zeroize` crate on the vector's slice, which writes the default of `u8`
/// over each element with a volatile write, so that the compiler may not
/// drop the writes. The length stays. The outside function panics only on a
/// slice of more than `isize::MAX` elements, which no vector of bytes is, so
/// the call is taken not to unwind.
#[verifier::external_body]
fn zeroize_bytes(bytes: &mut Vec<u8>)
    ensures
        final(bytes)@ == zeros(old(bytes)@.len()),
    opens_invariants none
    no_unwind
{
    bytes.as_mut_slice().zeroize();
}

/// The one copy of the user's PIN, as the NUL-terminated byte string that an
/// authenticator call takes. Its bytes are overwritten with zeros when the
/// holder is dropped.
pub struct PinHolder {
    bytes: Vec<u8>,
}

impl PinHolder {
    /// The bytes held, terminator included.
    pub closed spec fn view(&self) -> Seq<u8> {
        self.bytes@
    }

    /// The bytes end in a NUL, so that they can be read as a C string.
    #[verifier::type_invariant]
    spec fn terminated(&self) -> bool {
        self.bytes@.len() > 0 && self.bytes@.last() == 0u8
    }

    /// Whether the holder holds nothing but zeros.
    pub open spec fn is_wiped(&self) -> bool {
        self@ == zeros(self@.len())
    }

    /// Takes a copy of `pin`, followed by a NUL. A PIN that holds a NUL byte
    /// itself is refused with `Error::Encoding`, and no copy of it is made.
    pub fn new(pin: &str) -> (r: Result<PinHolder, Error>)
        ensures
            match r {
                Ok(holder) => !has_nul(pin.spec_bytes()) && holder@ == pin.spec_bytes().push(0u8),
                Err(e) => e == Error::Encoding && has_nul(pin.spec_bytes()),
            },
    {
        let src = pin.as_bytes();
        if contains_nul(src) {
            return Err(Error::Encoding);
        }
        let n: usize = src.len();
        // One allocation of the full size: growing would leave copies behind.
        let mut bytes: Vec<u8> = Vec::with_capacity(n.saturating_add(1));
        let mut k: usize = 0;
        while k < n
            invariant
                k <= n,
                n == src@.len(),
                bytes@ == src@.take(k as int),
            decreases n - k,
        {
            bytes.push(src[k]);
            proof {
                assert(src@.take(k as int).push(src@[k as int]) =~= src@.take(k + 1));
            }
            k += 1;
        }
        bytes.push(0u8);
        proof {
            assert(src@.take(n as int) =~= src@);
        }
        Ok(PinHolder { bytes })
    }

    /// The number of bytes held, terminator included.
    pub fn len(&self) -> (n: usize)
        ensures
            n == self@.len(),
            n > 0,
    {
        proof {
            use_type_invariant(self);
        }
        self.bytes.len()
    }

    /// The bytes held, for one call of the authenticator. Whatever has been
    /// done to the holder, they end in a NUL.
    pub fn as_bytes_with_nul(&self) -> (b: &[u8])
        ensures
            b@ == self@,
            b@.len() > 0,
            b@.last() == 0u8,
    {
        proof {
            use_type_invariant(self);
        }
        self.bytes.as_slice()
    }

    /// Overwrites the PIN with zeros, in place and over its whole length.
    pub fn wipe(&mut self)
        ensures
            final(self)@ == zeros(old(self)@.len()),
            final(self).is_wiped(),
        opens_invariants none
        no_unwind
    {
        proof {
            use_type_invariant(&*self);
        }
        zeroize_bytes(&mut self.bytes);
    }
}

impl Drop for PinHolder {
    fn drop(&mut self)
        opens_invariants none
        no_unwind
    {
        self.wipe();
    }
}

} // verus!
