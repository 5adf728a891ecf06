//! A verified model of the C-ABI bridge to a native C++ `Sample` class.
//!
//! The native side exposes three functions with C linkage: construct a
//! `Sample` from a `{data, length}` byte view, greet through it, and destroy
//! it. This crate states and proves the contract of that bridge:
//!
//! * [`marshal`] models the borrowed `{data, length}` string view that is
//!   passed by value across the boundary;
//! * [`native`] models the native heap of `Sample` objects and the lifecycle
//!   of the opaque handles it hands out;
//! * [`sample`] is the idiomatic wrapper layer: it marshals a native string
//!   slice into a view and forwards to the native side.
//!
//! The raw, unverifiable boundary itself (the C declarations and the calls
//! through them) lives outside this crate; everything here is the verified
//! statement of what that boundary does.

pub mod marshal;
pub mod native;
pub mod sample;

pub use marshal::std_string_const;
pub use native::Handle;
pub use native::NativeHeap;
pub use native::Sample;
