//! Capabilities for the two loop-based construction strategies: a default
//! value for default-fill, and a value-preserving clone for template-fill.

use vstd::prelude::*;

verus! {

/// Capability for element types that supply a default value, enabling
/// default-fill construction via [`crate::Array::new`].  It is implemented
/// for the primitive integer types (whose default is zero) and, recursively,
/// for fixed-size arrays of such types.
pub trait HasDefault: Sized {
    /// Holds exactly of the default value of the type.
    spec fn is_default(&self) -> bool;

    /// Produce the default value.
    fn default_value() -> (r: Self)
        ensures
            r.is_default(),
    ;
}

/// Capability for element types that can be cloned slot by slot, enabling
/// template-fill construction via [`crate::Array::new_from_template`].  The
/// clone must be equal in value to the value cloned; each clone is an independent
/// value, so mutating one slot of the resulting array never changes another.
pub trait CloneValue: Sized {
    /// Produce a value equal to `self`.
    fn clone_value(&self) -> (r: Self)
        ensures
            r == *self,
    ;
}

impl HasDefault for u8 {
    open spec fn is_default(&self) -> bool {
        *self == 0
    }

    fn default_value() -> (r: u8) {
        0
    }
}

impl HasDefault for i8 {
    open spec fn is_default(&self) -> bool {
        *self == 0
    }

    fn default_value() -> (r: i8) {
        0
    }
}

impl HasDefault for u16 {
    open spec fn is_default(&self) -> bool {
        *self == 0
    }

    fn default_value() -> (r: u16) {
        0
    }
}

impl HasDefault for i16 {
    open spec fn is_default(&self) -> bool {
        *self == 0
    }

    fn default_value() -> (r: i16) {
        0
    }
}

impl HasDefault for u32 {
    open spec fn is_default(&self) -> bool {
        *self == 0
    }

    fn default_value() -> (r: u32) {
        0
    }
}

impl HasDefault for i32 {
    open spec fn is_default(&self) -> bool {
        *self == 0
    }

    fn default_value() -> (r: i32) {
        0
    }
}

impl HasDefault for u64 {
    open spec fn is_default(&self) -> bool {
        *self == 0
    }

    fn default_value() -> (r: u64) {
        0
    }
}

impl HasDefault for i64 {
    open spec fn is_default(&self) -> bool {
        *self == 0
    }

    fn default_value() -> (r: i64) {
        0
    }
}

impl HasDefault for usize {
    open spec fn is_default(&self) -> bool {
        *self == 0
    }

    fn default_value() -> (r: usize) {
        0
    }
}

impl HasDefault for isize {
    open spec fn is_default(&self) -> bool {
        *self == 0
    }

    fn default_value() -> (r: isize) {
        0
    }
}

impl<T: HasDefault + Copy, const N: usize> HasDefault for [T; N] {
    open spec fn is_default(&self) -> bool {
        forall|k: int| 0 <= k < N ==> (#[trigger] self@[k]).is_default()
    }

    fn default_value() -> (r: [T; N]) {
        let d = T::default_value();
        [d; N]
    }
}

impl CloneValue for u8 {
    fn clone_value(&self) -> (r: u8) {
        *self
    }
}

impl CloneValue for i8 {
    fn clone_value(&self) -> (r: i8) {
        *self
    }
}

impl CloneValue for u16 {
    fn clone_value(&self) -> (r: u16) {
        *self
    }
}

impl CloneValue for i16 {
    fn clone_value(&self) -> (r: i16) {
        *self
    }
}

impl CloneValue for u32 {
    fn clone_value(&self) -> (r: u32) {
        *self
    }
}

impl CloneValue for i32 {
    fn clone_value(&self) -> (r: i32) {
        *self
    }
}

impl CloneValue for u64 {
    fn clone_value(&self) -> (r: u64) {
        *self
    }
}

impl CloneValue for i64 {
    fn clone_value(&self) -> (r: i64) {
        *self
    }
}

impl CloneValue for usize {
    fn clone_value(&self) -> (r: usize) {
        *self
    }
}

impl CloneValue for isize {
    fn clone_value(&self) -> (r: isize) {
        *self
    }
}

impl<T: CloneValue + Copy, const N: usize> CloneValue for [T; N] {
    fn clone_value(&self) -> (r: [T; N]) {
        *self
    }
}

} // verus!
