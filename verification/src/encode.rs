//! Encoding of bound values.

use vstd::prelude::*;

verus! {

/// A value that can be written in the wire format of the backend `DB`.
pub trait Encode<DB> {
    /// The bytes that stand for this value on the wire of `DB`.
    spec fn encoded(&self) -> Seq<u8>;

    /// Appends the encoding of this value to `buf` and leaves what `buf`
    /// already held untouched.
    fn encode(&self, buf: &mut Vec<u8>)
        ensures
            final(buf)@ == old(buf)@ + self.encoded(),
    ;
}

} // verus!
