//! A model of the native side of the bridge.
//!
//! The native library keeps `Sample` objects on its own heap and hands out
//! opaque, address-only handles to them. A handle is either null, live (it
//! was returned by an allocation and not yet deleted), or dangling (it was
//! deleted). This module models that heap and states, for each of the three
//! native entry points, exactly what it does to it:
//!
//! * allocation copies the viewed bytes into a fresh object and returns a
//!   non-null handle that aliases no other;
//! * greeting reads the stored bytes of one live object and touches nothing;
//! * deletion destroys exactly the one object and leaves its handle dangling
//!   forever.

use vstd::prelude::*;
use vstd::slice::slice_to_vec;

use crate::marshal::std_string_const;

verus! {

/// The bytes the native side emits when asked to greet: the stored name
/// embedded in the fixed text `hi <name>` followed by a line break.
pub open spec fn greeting_of(name: Seq<u8>) -> Seq<u8> {
    seq![104u8, 105u8, 32u8] + name + seq![10u8]
}

/// Does `hay` contain `needle` as a contiguous run of bytes?
pub open spec fn contains_subrange(hay: Seq<u8>, needle: Seq<u8>) -> bool {
    exists|i: int|
        0 <= i && i + needle.len() <= hay.len() && #[trigger] hay.subrange(i, i + needle.len())
            == needle
}

/// The greeting always embeds the name it was built from as one contiguous
/// run of bytes, whatever the name is — empty, with embedded NUL bytes, or
/// arbitrarily long.
pub proof fn lemma_greeting_contains_name(name: Seq<u8>)
    ensures
        contains_subrange(greeting_of(name), name),
{
    assert(greeting_of(name).subrange(3, 3 + name.len() as int) =~= name);
}

/// A native `Sample` object: it owns its copy of the name bytes, taken from
/// the borrowed view at construction, so the caller's buffer is free the
/// moment construction returns.
pub struct Sample {
    name: Vec<u8>,
}

impl View for Sample {
    type V = Seq<u8>;

    /// A `Sample` is, abstractly, the byte string it stores.
    closed spec fn view(&self) -> Seq<u8> {
        self.name@
    }
}

impl Sample {
    /// Construction from a `{data, length}` view: copy exactly the described
    /// bytes into owned storage. Nothing of the borrowed buffer is retained.
    pub fn construct(name: std_string_const) -> (obj: Sample)
        requires
            name.wf(),
        ensures
            obj@ == name.bytes(),
    {
        Sample { name: slice_to_vec(name.data) }
    }

    /// The bytes this object greets with: its stored name embedded in the
    /// fixed greeting text. The name is written out length-aware, byte for
    /// byte, so embedded NUL bytes are emitted, not truncated at.
    pub fn greeting(&self) -> (out: Vec<u8>)
        ensures
            out@ == greeting_of(self@),
    {
        let mut out: Vec<u8> = Vec::new();
        out.push(104u8);
        out.push(105u8);
        out.push(32u8);
        let mut i: usize = 0;
        while i < self.name.len()
            invariant
                i <= self.name@.len(),
                out@ == seq![104u8, 105u8, 32u8] + self.name@.subrange(0, i as int),
            decreases self.name@.len() - i,
        {
            out.push(self.name[i]);
            i = i + 1;
        }
        out.push(10u8);
        proof {
            assert(out@ =~= greeting_of(self@));
        }
        out
    }
}

/// An opaque handle to a native `Sample`: an address-only token. The id `0`
/// plays the role of the null address; every handle an allocation returns
/// has a nonzero id.
#[derive(Clone, Copy, PartialEq, Eq, Structural, Debug)]
pub struct Handle {
    id: usize,
}

impl View for Handle {
    type V = int;

    /// Abstractly, a handle is just its address.
    closed spec fn view(&self) -> int {
        self.id as int
    }
}

impl Handle {
    /// The null handle: what a failed allocation would hand back. It is
    /// never live, so the greeting and deletion entry points refuse it.
    pub fn null() -> (h: Handle)
        ensures
            h@ == 0,
    {
        Handle { id: 0 }
    }

    /// Is this the null handle?
    pub fn is_null(&self) -> (b: bool)
        ensures
            b == (self@ == 0),
    {
        self.id == 0
    }
}

/// The native heap of `Sample` objects. Slot `i` of the vector backs the
/// handle with id `i + 1`; a slot holds `None` once its object has been
/// deleted, and deleted slots are never reissued, so an id dead once is dead
/// forever.
pub struct NativeHeap {
    slots: Vec<Option<Sample>>,
}

impl NativeHeap {
    /// How many allocations this heap has ever performed. Every handle ever
    /// returned has an id between 1 and this bound.
    pub closed spec fn allocated(self) -> int {
        self.slots@.len() as int
    }

    /// Is the handle with id `id` live: returned by an allocation and not
    /// yet deleted? The null id is never live.
    pub closed spec fn live(self, id: int) -> bool {
        1 <= id <= self.slots@.len() && self.slots@[id - 1] is Some
    }

    /// The bytes stored by the live object behind id `id`.
    pub closed spec fn stored(self, id: int) -> Seq<u8> {
        self.slots@[id - 1]->0@
    }

    /// What one allocation does to the heap: the returned handle `h` is the
    /// next address, fresh and non-null; it is now live and holds exactly
    /// `name`; every other handle keeps its state and its bytes.
    pub open spec fn new_transition(pre: NativeHeap, post: NativeHeap, h: int, name: Seq<u8>) -> bool {
        &&& h == pre.allocated() + 1
        &&& post.allocated() == pre.allocated() + 1
        &&& !pre.live(h)
        &&& post.live(h)
        &&& post.stored(h) == name
        &&& forall|i: int| i != h ==> (post.live(i) <==> pre.live(i))
        &&& forall|i: int| i != h && pre.live(i) ==> post.stored(i) == pre.stored(i)
    }

    /// What one deletion does to the heap: `h` was live and is no longer;
    /// nothing else changes state or bytes, and no new address appears.
    pub open spec fn delete_transition(pre: NativeHeap, post: NativeHeap, h: int) -> bool {
        &&& pre.live(h)
        &&& !post.live(h)
        &&& post.allocated() == pre.allocated()
        &&& forall|i: int| i != h ==> (post.live(i) <==> pre.live(i))
        &&& forall|i: int| i != h && pre.live(i) ==> post.stored(i) == pre.stored(i)
    }

    /// The heap at process start: nothing has ever been allocated, no handle
    /// is live.
    pub fn startup() -> (heap: NativeHeap)
        ensures
            heap.allocated() == 0,
            forall|i: int| !heap.live(i),
    {
        NativeHeap { slots: Vec::new() }
    }

    /// The native allocation entry point: construct a `Sample` from the
    /// viewed bytes and hand out a fresh, non-null handle to it.
    pub fn sample_new(&mut self, name: std_string_const) -> (h: Handle)
        requires
            name.wf(),
        ensures
            Self::new_transition(*old(self), *final(self), h@, name.bytes()),
    {
        let obj = Sample::construct(name);
        self.slots.push(Some(obj));
        Handle { id: self.slots.len() }
    }

    /// The native greeting entry point: read the stored name of the live
    /// object behind `inst` and hand back the bytes it writes. The heap is
    /// only read; every object keeps its state.
    pub fn sample_say_hi(&self, inst: &Handle) -> (out: Vec<u8>)
        requires
            self.live(inst@),
        ensures
            out@ == greeting_of(self.stored(inst@)),
    {
        let idx = inst.id - 1;
        match &self.slots[idx] {
            Some(obj) => obj.greeting(),
            None => vstd::pervasive::unreached(),
        }
    }

    /// The native deletion entry point: destroy the object behind `inst`.
    /// The handle dangles from here on; it never becomes live again.
    pub fn sample_delete(&mut self, inst: &Handle)
        requires
            old(self).live(inst@),
        ensures
            Self::delete_transition(*old(self), *final(self), inst@),
    {
        let idx = inst.id - 1;
        self.slots.set(idx, None);
    }

    /// Inspection for unverified callers: is this handle live on this heap?
    pub fn is_live(&self, inst: &Handle) -> (b: bool)
        ensures
            b == self.live(inst@),
    {
        if inst.id == 0 {
            false
        } else {
            let idx = inst.id - 1;
            idx < self.slots.len() && self.slots[idx].is_some()
        }
    }
}

/// The null handle is live on no heap, so every entry point that demands a
/// live handle refuses it.
pub proof fn lemma_null_never_live(heap: NativeHeap)
    ensures
        !heap.live(0),
{
}

/// Deletion is not repeatable: once a deletion of `h` has happened, no state
/// the heap is in admits another deletion of the same handle.
pub proof fn lemma_second_delete_refused(pre: NativeHeap, mid: NativeHeap, h: int)
    requires
        NativeHeap::delete_transition(pre, mid, h),
    ensures
        forall|post: NativeHeap| !(#[trigger] NativeHeap::delete_transition(mid, post, h)),
{
}

/// A dead handle stays dead: a handle that was once issued and is not live
/// is revived neither by a later allocation (which returns a strictly fresh
/// address) nor by a later deletion. Together with
/// [`lemma_second_delete_refused`] this pins the lifecycle down: each
/// successful allocation admits exactly one deletion of its handle.
pub proof fn lemma_dead_stays_dead(
    pre: NativeHeap,
    post: NativeHeap,
    h: int,
    fresh: int,
    name: Seq<u8>,
    victim: int,
)
    requires
        1 <= h <= pre.allocated(),
        !pre.live(h),
        NativeHeap::new_transition(pre, post, fresh, name) || NativeHeap::delete_transition(
            pre,
            post,
            victim,
        ),
    ensures
        !post.live(h),
{
}

/// Instances are independent, allocation half: a fresh handle aliases no
/// handle that was live before it, and the allocation leaves every live
/// instance's stored bytes untouched.
pub proof fn lemma_instances_independent(
    pre: NativeHeap,
    post: NativeHeap,
    fresh: int,
    name: Seq<u8>,
    other: int,
)
    requires
        NativeHeap::new_transition(pre, post, fresh, name),
        pre.live(other),
    ensures
        other != fresh,
        post.live(other),
        post.stored(other) == pre.stored(other),
{
}

/// Instances are independent, deletion half: deleting one instance leaves
/// every other live instance live, with its stored bytes unchanged.
pub proof fn lemma_delete_leaves_others(pre: NativeHeap, post: NativeHeap, victim: int, other: int)
    requires
        NativeHeap::delete_transition(pre, post, victim),
        pre.live(other),
        other != victim,
    ensures
        post.live(other),
        post.stored(other) == pre.stored(other),
{
}

} // verus!
