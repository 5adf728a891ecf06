//! The idiomatic wrapper layer: the only surface callers are meant to use.
//!
//! Each operation is a one-to-one forward to the native side. `new` first
//! marshals the caller's native string slice into the `{data, length}` view
//! the native side expects — pointer and byte length of the slice, no copy,
//! no transcoding — and the slice is only borrowed for the duration of the
//! call. `sayHi` hands back the bytes the native side writes, so that the
//! caller may send them to its output stream.

use vstd::prelude::*;
use vstd::string::StringSliceAdditionalSpecFns;

use crate::marshal::std_string_const;
use crate::native::Handle;
use crate::native::NativeHeap;
use crate::native::greeting_of;

verus! {

/// Construct a native `Sample` whose stored name is exactly the UTF-8 bytes
/// of `name`. The returned handle is fresh, non-null and live; every other
/// handle is left untouched. The slice is borrowed only for this call.
pub fn new(heap: &mut NativeHeap, name: &str) -> (h: Handle)
    ensures
        NativeHeap::new_transition(*old(heap), *final(heap), h@, name.spec_bytes()),
{
    let view = std_string_const::from_str(name);
    heap.sample_new(view)
}

/// As [`new`], but from a raw byte buffer: the stored name is exactly the
/// bytes of `buf`, NUL bytes and all.
pub fn new_from_bytes(heap: &mut NativeHeap, buf: &[u8]) -> (h: Handle)
    ensures
        NativeHeap::new_transition(*old(heap), *final(heap), h@, buf@),
{
    let view = std_string_const::from_slice(buf);
    heap.sample_new(view)
}

/// Greet through a live handle: the result is the greeting built from the
/// bytes stored behind `inst`, and the heap is not changed.
#[allow(non_snake_case)]
pub fn sayHi(heap: &NativeHeap, inst: &Handle) -> (out: Vec<u8>)
    requires
        heap.live(inst@),
    ensures
        out@ == greeting_of(heap.stored(inst@)),
{
    heap.sample_say_hi(inst)
}

/// Destroy the object behind a live handle. The handle dangles afterwards:
/// it is not live on the resulting heap, and no later operation revives it,
/// so a second `delete` of the same handle is never admitted.
pub fn delete(heap: &mut NativeHeap, inst: &Handle)
    requires
        old(heap).live(inst@),
    ensures
        NativeHeap::delete_transition(*old(heap), *final(heap), inst@),
{
    heap.sample_delete(inst)
}

} // verus!
