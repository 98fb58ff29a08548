//! The [`Zeroable`] capability: element types for which the all-zero byte
//! pattern is a valid value, so a buffer of them may be initialized by
//! zero-filling alone.

use vstd::prelude::*;

verus! {

broadcast use vstd::array::group_array_axioms;

/// Marker capability for types whose all-zero representation is a valid
/// value.  It is implemented for the primitive integer types and,
/// recursively, for fixed-size arrays of such types, which allows zero-fill
/// construction of nested arrays such as `[u8; 4096]`.
pub trait Zeroable: Sized {
    /// Holds exactly of the zero value of the type.
    spec fn is_zero(&self) -> bool;

    /// Produce the zero value.
    fn zero_value() -> (r: Self)
        ensures
            r.is_zero(),
    ;
}

impl Zeroable for u8 {
    open spec fn is_zero(&self) -> bool {
        *self == 0
    }

    fn zero_value() -> (r: u8) {
        0
    }
}

impl Zeroable for i8 {
    open spec fn is_zero(&self) -> bool {
        *self == 0
    }

    fn zero_value() -> (r: i8) {
        0
    }
}

impl Zeroable for u16 {
    open spec fn is_zero(&self) -> bool {
        *self == 0
    }

    fn zero_value() -> (r: u16) {
        0
    }
}

impl Zeroable for i16 {
    open spec fn is_zero(&self) -> bool {
        *self == 0
    }

    fn zero_value() -> (r: i16) {
        0
    }
}

impl Zeroable for u32 {
    open spec fn is_zero(&self) -> bool {
        *self == 0
    }

    fn zero_value() -> (r: u32) {
        0
    }
}

impl Zeroable for i32 {
    open spec fn is_zero(&self) -> bool {
        *self == 0
    }

    fn zero_value() -> (r: i32) {
        0
    }
}

impl Zeroable for u64 {
    open spec fn is_zero(&self) -> bool {
        *self == 0
    }

    fn zero_value() -> (r: u64) {
        0
    }
}

impl Zeroable for i64 {
    open spec fn is_zero(&self) -> bool {
        *self == 0
    }

    fn zero_value() -> (r: i64) {
        0
    }
}

impl Zeroable for usize {
    open spec fn is_zero(&self) -> bool {
        *self == 0
    }

    fn zero_value() -> (r: usize) {
        0
    }
}

impl Zeroable for isize {
    open spec fn is_zero(&self) -> bool {
        *self == 0
    }

    fn zero_value() -> (r: isize) {
        0
    }
}

impl<T: Zeroable + Copy, const N: usize> Zeroable for [T; N] {
    open spec fn is_zero(&self) -> bool {
        forall|k: int| 0 <= k < N ==> (#[trigger] self@[k]).is_zero()
    }

    fn zero_value() -> (r: [T; N]) {
        let z = T::zero_value();
        [z; N]
    }
}

} // verus!
