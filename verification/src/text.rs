//! Strings in the form the backend's C interface takes them.

use vstd::prelude::*;
use vstd::string::*;

verus! {

/// A string reference as the backend receives it: a buffer that ends in a
/// zero byte, and the number of bytes before that terminator.
#[derive(Debug, PartialEq, Eq)]
pub struct StringRef {
    pub data: Vec<u8>,
    pub length: usize,
}

impl StringRef {
    /// The buffer is the referenced bytes, none of them zero, followed by
    /// exactly one zero byte.
    pub open spec fn wf(&self) -> bool {
        &&& self.data@.len() == self.length + 1
        &&& self.data@[self.length as int] == 0u8
        &&& !self.bytes().contains(0u8)
    }

    /// The referenced bytes, without the terminator.
    pub open spec fn bytes(&self) -> Seq<u8> {
        self.data@.take(self.length as int)
    }
}

/// Whether the UTF-8 encoding of `value` holds a zero byte, which no C string
/// can carry.
pub fn has_interior_nul(value: &str) -> (found: bool)
    ensures
        found == value.spec_bytes().contains(0u8),
{
    let bytes = value.as_bytes();
    let mut i: usize = 0;
    while i < bytes.len()
        invariant
            i <= bytes@.len(),
            bytes@ == value.spec_bytes(),
            !bytes@.take(i as int).contains(0u8),
        decreases bytes@.len() - i,
    {
        if bytes[i] == 0 {
            assert(bytes@.contains(0u8));
            return true;
        }
        assert(bytes@.take(i + 1) =~= bytes@.take(i as int).push(bytes@[i as int]));
        i += 1;
    }
    assert(bytes@.take(i as int) =~= bytes@);
    false
}

/// Puts `value` in the backend's string form: its UTF-8 bytes followed by a
/// zero terminator, with the byte count of `value` as the length.
pub fn mlir_str(value: &str) -> (r: StringRef)
    requires
        !value.spec_bytes().contains(0u8),
    ensures
        r.data@ == value.spec_bytes().push(0u8),
        r.length == value.spec_bytes().len(),
        r.wf(),
{
    let mut data = value.as_bytes_vec();
    let length = data.len();
    data.push(0u8);
    let r = StringRef { data, length };
    assert(r.bytes() =~= value.spec_bytes());
    r
}

} // verus!
