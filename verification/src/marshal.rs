//! The borrowed `{data, length}` string view that crosses the C ABI.
//!
//! The native side reconstructs a `std::string` from an explicit
//! pointer-and-length pair, so the view carries a borrowed byte buffer and a
//! length, never a terminator. The buffer is borrowed only for the duration
//! of one call and is never owned by the view.

use vstd::prelude::*;
use vstd::string::StringSliceAdditionalSpecFns;

verus! {

/// The `{data, length}` view of a byte string, in the shape the native side
/// expects: a borrowed pointer to `length` contiguous readable bytes. No
/// trailing NUL is required or assumed, so embedded NUL bytes are legal.
#[allow(non_camel_case_types)]
pub struct std_string_const<'a> {
    /// The borrowed bytes themselves.
    pub data: &'a [u8],
    /// How many bytes are readable at `data`.
    pub length: usize,
}

impl<'a> std_string_const<'a> {
    /// A view is well formed when its stated length is exactly the length of
    /// the buffer it borrows. The marshalling functions below establish this;
    /// a view violating it would describe bytes that cannot be read.
    pub open spec fn wf(self) -> bool {
        self.length == self.data@.len()
    }

    /// The byte sequence the view describes.
    pub open spec fn bytes(self) -> Seq<u8> {
        self.data@
    }

    /// Marshal a byte buffer: the view borrows the buffer and records its
    /// length. No byte is copied and no terminator is appended.
    pub fn from_slice(buf: &'a [u8]) -> (v: std_string_const<'a>)
        ensures
            v.wf(),
            v.bytes() == buf@,
    {
        std_string_const { data: buf, length: buf.len() }
    }

    /// Marshal a native string slice: the view borrows the slice's UTF-8
    /// bytes as they are, without transcoding or copying.
    pub fn from_str(name: &'a str) -> (v: std_string_const<'a>)
        ensures
            v.wf(),
            v.bytes() == name.spec_bytes(),
    {
        Self::from_slice(name.as_bytes())
    }
}

} // verus!
