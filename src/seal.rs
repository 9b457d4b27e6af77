//! The seal of the attribute trait: reachable inside this crate only, so no
//! other crate can implement it.

use vstd::prelude::*;

verus! {

/// Restricts the attribute trait to the types implemented in this crate.
pub trait Sealed {}

impl Sealed for bool {}

impl Sealed for i32 {}

impl Sealed for i64 {}

impl Sealed for u32 {}

impl Sealed for u64 {}

impl Sealed for usize {}

impl Sealed for String {}

impl Sealed for Vec<u8> {}

} // verus!
