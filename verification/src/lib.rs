//! Fixed-size, heap-allocated arrays for data too large for a stack frame.
//!
//! An [`Array<T>`] owns a contiguous, heap-allocated region holding a fixed
//! number of elements, chosen at construction and immutable afterwards.  Three
//! construction strategies are offered: [`Array::zero`] for element types
//! whose all-zero representation is a valid value, [`Array::new`] for element
//! types with a default value, and [`Array::new_from_template`] which clones a
//! template into every slot.  All element access is bounds-checked: an index
//! or range outside the array yields [`ArrayError::BoundsError`] instead of
//! touching adjacent memory.
//!
//! The array performs no internal synchronization: concurrent mutation
//! requires the caller to supply external mutual exclusion (for example by
//! wrapping the array in a mutex), while concurrent read-only access is safe.

mod fill;
mod zeroable;

use vstd::prelude::*;

pub use fill::CloneValue;
pub use fill::HasDefault;
pub use zeroable::Zeroable;

verus! {

/// The ways an array operation can fail.
#[derive(Clone, Copy, Debug, PartialEq, Eq, Structural)]
pub enum ArrayError {
    /// The requested element count cannot be laid out in memory: the byte
    /// size of the allocation would exceed `isize::MAX`.
    AllocationFailure,
    /// An index or range reached outside the array.
    BoundsError,
}

/// A fixed-size, heap-allocated array of `T`.
///
/// The element count is fixed at construction; the backing storage is
/// allocated on the heap, so the array itself stays small on the stack no
/// matter how many elements it holds.  The storage is owned exclusively by
/// this value and released exactly once when it is dropped.
#[derive(Debug)]
pub struct Array<T> {
    data: Vec<T>,
}

impl<T> View for Array<T> {
    type V = Seq<T>;

    closed spec fn view(&self) -> Seq<T> {
        self.data@
    }
}

/// For a positive divisor `s`, comparing against the quotient `m / s` is the
/// same as comparing the product against `m`.
proof fn lemma_quotient_bounds_product(m: int, s: int, c: int)
    requires
        0 < s,
        0 <= c,
        0 <= m,
    ensures
        (c <= m / s) <==> (c * s <= m),
{
    vstd::arithmetic::div_mod::lemma_fundamental_div_mod(m, s);
    vstd::arithmetic::div_mod::lemma_mod_bound(m, s);
    let q = m / s;
    let r = m % s;
    assert((c <= q ==> c * s <= m) && (q < c ==> m < c * s)) by (nonlinear_arith)
        requires
            m == s * q + r,
            0 <= r,
            r < s,
            0 < s,
            0 <= c,
    ;
}

impl<T> Array<T> {
    /// Whether `count` elements of `T` can be laid out in one allocation:
    /// the total byte size must not exceed `isize::MAX`.
    fn fits_layout(count: usize) -> (r: bool)
        ensures
            r <==> (count as nat) * vstd::layout::size_of::<T>() <= isize::MAX as nat,
    {
        let elem: usize = core::mem::size_of::<T>();
        if elem == 0 {
            true
        } else {
            let limit: usize = (isize::MAX as usize) / elem;
            proof {
                lemma_quotient_bounds_product(isize::MAX as int, elem as int, count as int);
            }
            count <= limit
        }
    }

    /// The length of the array (number of elements `T`).
    pub fn len(&self) -> (r: usize)
        ensures
            r == self@.len(),
    {
        self.data.len()
    }
}

impl<T: Zeroable> Array<T> {
    /// Build an array of `size` zero values.
    ///
    /// Every slot of the result holds the element type's zero value.  Fails
    /// with [`ArrayError::AllocationFailure`] exactly when `size` elements do
    /// not fit in a single allocation (byte size over `isize::MAX`).
    pub fn zero(size: usize) -> (r: Result<Array<T>, ArrayError>)
        ensures
            r is Ok <==> (size as nat) * vstd::layout::size_of::<T>() <= isize::MAX as nat,
            r matches Ok(a) ==> a@.len() == size
                && forall|i: int| 0 <= i < size ==> (#[trigger] a@[i]).is_zero(),
            r matches Err(e) ==> e == ArrayError::AllocationFailure,
    {
        if !Self::fits_layout(size) {
            return Err(ArrayError::AllocationFailure);
        }
        let mut data: Vec<T> = Vec::with_capacity(size);
        let mut i: usize = 0;
        while i < size
            invariant
                i <= size,
                data@.len() == i,
                forall|k: int| 0 <= k < i ==> (#[trigger] data@[k]).is_zero(),
            decreases size - i,
        {
            data.push(T::zero_value());
            i = i + 1;
        }
        Ok(Array { data })
    }
}

impl<T: HasDefault + Copy> Array<T> {
    /// Build an array of `size` default values.
    ///
    /// Every slot of the result holds the element type's default value.
    /// Fails with [`ArrayError::AllocationFailure`] exactly when `size`
    /// elements do not fit in a single allocation.
    pub fn new(size: usize) -> (r: Result<Array<T>, ArrayError>)
        ensures
            r is Ok <==> (size as nat) * vstd::layout::size_of::<T>() <= isize::MAX as nat,
            r matches Ok(a) ==> a@.len() == size
                && forall|i: int| 0 <= i < size ==> (#[trigger] a@[i]).is_default(),
            r matches Err(e) ==> e == ArrayError::AllocationFailure,
    {
        if !Self::fits_layout(size) {
            return Err(ArrayError::AllocationFailure);
        }
        let d: T = T::default_value();
        let mut data: Vec<T> = Vec::with_capacity(size);
        let mut i: usize = 0;
        while i < size
            invariant
                i <= size,
                data@.len() == i,
                d.is_default(),
                forall|k: int| 0 <= k < i ==> (#[trigger] data@[k]).is_default(),
            decreases size - i,
        {
            data.push(d);
            i = i + 1;
        }
        Ok(Array { data })
    }
}

impl<T: CloneValue> Array<T> {
    /// Build an array of `size` independent clones of `template`.
    ///
    /// Every slot of the result is equal in value to `template`, and each
    /// slot is its own value: mutating one slot later never changes another.
    /// Fails with [`ArrayError::AllocationFailure`] exactly when `size`
    /// elements do not fit in a single allocation.
    pub fn new_from_template(size: usize, template: &T) -> (r: Result<Array<T>, ArrayError>)
        ensures
            r is Ok <==> (size as nat) * vstd::layout::size_of::<T>() <= isize::MAX as nat,
            r matches Ok(a) ==> a@.len() == size
                && forall|i: int| 0 <= i < size ==> #[trigger] a@[i] == *template,
            r matches Err(e) ==> e == ArrayError::AllocationFailure,
    {
        if !Self::fits_layout(size) {
            return Err(ArrayError::AllocationFailure);
        }
        let mut data: Vec<T> = Vec::with_capacity(size);
        let mut i: usize = 0;
        while i < size
            invariant
                i <= size,
                data@.len() == i,
                forall|k: int| 0 <= k < i ==> #[trigger] data@[k] == *template,
            decreases size - i,
        {
            data.push(template.clone_value());
            i = i + 1;
        }
        Ok(Array { data })
    }
}

impl<T> Array<T> {
    /// Borrow the element in slot `i`.
    ///
    /// Returns [`ArrayError::BoundsError`] exactly when `i` is outside the
    /// array.
    pub fn index(&self, i: usize) -> (r: Result<&T, ArrayError>)
        ensures
            i < self@.len() ==> (r matches Ok(v) && *v == self@[i as int]),
            i >= self@.len() ==> (r matches Err(e) && e == ArrayError::BoundsError),
    {
        if i < self.data.len() {
            Ok(vstd::slice::slice_index_get(self.data.as_slice(), i))
        } else {
            Err(ArrayError::BoundsError)
        }
    }

    /// Replace the element in slot `i` with `value`.
    ///
    /// On success the chosen slot holds `value` and every other slot is
    /// unchanged.  Returns [`ArrayError::BoundsError`] exactly when `i` is
    /// outside the array, leaving the array unchanged.
    pub fn set(&mut self, i: usize, value: T) -> (r: Result<(), ArrayError>)
        ensures
            i < old(self)@.len() ==> r is Ok
                && final(self)@ == old(self)@.update(i as int, value)
                && final(self)@[i as int] == value
                && (forall|j: int|
                    0 <= j < old(self)@.len() && j != i
                        ==> final(self)@[j] == old(self)@[j]),
            i >= old(self)@.len() ==> (r matches Err(e) && e == ArrayError::BoundsError)
                && final(self)@ == old(self)@,
            final(self)@.len() == old(self)@.len(),
    {
        if i < self.data.len() {
            self.data[i] = value;
            Ok(())
        } else {
            Err(ArrayError::BoundsError)
        }
    }

    /// Borrow the contiguous range of slots `[start, end)` as a slice.
    ///
    /// The element of the view at local offset `k` is the array's element in
    /// slot `start + k`.  Returns [`ArrayError::BoundsError`] exactly when
    /// the range does not satisfy `start <= end <= len`.
    pub fn range(&self, start: usize, end: usize) -> (r: Result<&[T], ArrayError>)
        ensures
            start <= end <= self@.len() ==> (r matches Ok(s)
                && s@ == self@.subrange(start as int, end as int)
                && s@.len() == end - start
                && (forall|k: int| 0 <= k < end - start ==> #[trigger] s@[k] == self@[start + k])),
            !(start <= end <= self@.len()) ==> (r matches Err(e) && e == ArrayError::BoundsError),
    {
        if start <= end && end <= self.data.len() {
            Ok(vstd::slice::slice_subrange(self.data.as_slice(), start, end))
        } else {
            Err(ArrayError::BoundsError)
        }
    }

    /// Borrow the whole array as a slice.
    pub fn to_slice(&self) -> (r: &[T])
        ensures
            r@ == self@,
    {
        self.data.as_slice()
    }

    /// Borrow the whole array as a mutable slice.
    pub fn to_slice_mut(&mut self) -> (r: &mut [T])
        ensures
            r@ == old(self)@,
            final(self)@ == final(r)@,
    {
        self.data.as_mut_slice()
    }
}

impl<T: Copy> Array<T> {
    /// Overwrite the range of slots starting at `start` with the elements of
    /// `values`, in order: slot `start + k` receives `values[k]`.
    ///
    /// Slots outside the written range are unchanged.  Returns
    /// [`ArrayError::BoundsError`] exactly when the range would reach outside
    /// the array, leaving it unchanged.
    pub fn set_range(&mut self, start: usize, values: &[T]) -> (r: Result<(), ArrayError>)
        ensures
            final(self)@.len() == old(self)@.len(),
            start + values@.len() <= old(self)@.len() ==> r is Ok
                && (forall|k: int|
                    0 <= k < values@.len() ==> final(self)@[start + k] == values@[k])
                && (forall|j: int|
                    0 <= j < old(self)@.len() && !(start <= j < start + values@.len())
                        ==> final(self)@[j] == old(self)@[j]),
            start + values@.len() > old(self)@.len()
                ==> (r matches Err(e) && e == ArrayError::BoundsError)
                    && final(self)@ == old(self)@,
    {
        let n: usize = values.len();
        if n > self.data.len() || start > self.data.len() - n {
            return Err(ArrayError::BoundsError);
        }
        let mut k: usize = 0;
        while k < n
            invariant
                k <= n,
                n == values@.len(),
                start + n <= usize::MAX,
                start + n <= self@.len(),
                self@.len() == old(self)@.len(),
                forall|j: int| 0 <= j < k ==> self@[start + j] == values@[j],
                forall|j: int|
                    0 <= j < old(self)@.len() && !(start <= j < start + k)
                        ==> self@[j] == old(self)@[j],
            decreases n - k,
        {
            self.data[start + k] = values[k];
            k = k + 1;
        }
        Ok(())
    }
}

impl<T> Array<T> {
    /// Create an immutable iterator over the elements of the array.
    ///
    /// The cursor starts at slot 0; a fresh call always restarts from the
    /// beginning.  While the cursor is alive the array is borrowed shared,
    /// so it cannot be mutated.
    pub fn iter<'a>(&'a self) -> (r: ArrayIter<'a, T>)
        ensures
            r.elements() == self@,
            r.position() == 0,
            r.wf(),
    {
        ArrayIter { arr: self, pos: 0 }
    }
}

/// A forward-only cursor over a borrowed [`Array`].
///
/// Produced by [`Array::iter`]; visits every slot once, in ascending index
/// order, then is exhausted permanently.
pub struct ArrayIter<'a, T> {
    arr: &'a Array<T>,
    pos: usize,
}

impl<'a, T> ArrayIter<'a, T> {
    /// The elements of the array the cursor walks over.
    pub closed spec fn elements(&self) -> Seq<T> {
        self.arr@
    }

    /// How many elements the cursor has already produced.
    pub closed spec fn position(&self) -> int {
        self.pos as int
    }

    /// The cursor never stands past the end of the array.
    pub open spec fn wf(&self) -> bool {
        0 <= self.position() <= self.elements().len()
    }

    /// The elements the cursor has yet to produce, in order.
    pub open spec fn remaining(&self) -> Seq<T>
        recommends
            self.wf(),
    {
        self.elements().skip(self.position())
    }

    /// Produce the next element, or `None` once the cursor is exhausted.
    ///
    /// While elements remain, each call returns the element at the current
    /// position and advances the cursor by one, so a full walk visits every
    /// slot exactly once, in ascending index order.
    pub fn next(&mut self) -> (r: Option<&'a T>)
        ensures
            old(self).position() < old(self).elements().len() ==> (r matches Some(v)
                && *v == old(self).elements()[old(self).position()]
                && final(self).position() == old(self).position() + 1),
            old(self).position() >= old(self).elements().len() ==> r is None
                && final(self).position() == old(self).position(),
            final(self).elements() == old(self).elements(),
            old(self).wf() ==> final(self).wf(),
    {
        if self.pos < self.arr.data.len() {
            let v: &'a T = vstd::slice::slice_index_get(self.arr.data.as_slice(), self.pos);
            self.pos = self.pos + 1;
            Some(v)
        } else {
            None
        }
    }

    /// The exact number of elements the cursor has yet to produce.
    pub fn len(&self) -> (r: usize)
        requires
            self.wf(),
        ensures
            r == self.remaining().len(),
            r == self.elements().len() - self.position(),
    {
        self.arr.data.len() - self.pos
    }
}

impl<T: Copy> Array<T> {
    /// Walk the array once with a fresh cursor and collect everything it
    /// produces.
    ///
    /// The result equals the array's contents: iteration from a fresh cursor
    /// yields exactly `len` elements, in ascending index order, each the
    /// value a direct indexed read of the same slot returns.
    pub fn collect_elements(&self) -> (r: Vec<T>)
        ensures
            r@ == self@,
    {
        let mut it = self.iter();
        let mut out: Vec<T> = Vec::new();
        let n: usize = self.len();
        let mut i: usize = 0;
        while i < n
            invariant
                n == self@.len(),
                i <= n,
                it.elements() == self@,
                it.position() == i,
                out@ == self@.take(i as int),
            decreases n - i,
        {
            if let Some(v) = it.next() {
                out.push(*v);
            }
            proof {
                assert(self@.take(i + 1) =~= self@.take(i as int).push(self@[i as int]));
            }
            i = i + 1;
        }
        proof {
            assert(out@ =~= self@);
        }
        out
    }
}

/// Writing a value into a slot and then reading the same slot gives that
/// value back: over the array's contents `s`, the update of slot `i` to `v`
/// reads back as `v` at `i`, and every other slot keeps its element.
pub proof fn lemma_write_then_read<T>(s: Seq<T>, i: int, v: T)
    requires
        0 <= i < s.len(),
    ensures
        s.update(i, v)[i] == v,
        forall|j: int| 0 <= j < s.len() && j != i ==> s.update(i, v)[j] == s[j],
{
}

/// The slots of a template-filled array are independent: when every slot
/// holds the template, overwriting one slot leaves every other slot still
/// equal to the template, and the overwritten slot holds the new value.
pub proof fn lemma_template_slots_independent<T>(s: Seq<T>, template: T, i: int, v: T)
    requires
        forall|k: int| 0 <= k < s.len() ==> s[k] == template,
        0 <= i < s.len(),
    ensures
        s.update(i, v)[i] == v,
        forall|j: int| 0 <= j < s.len() && j != i ==> s.update(i, v)[j] == template,
{
}

} // verus!
