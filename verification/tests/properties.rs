use arr::Array;
use arr::ArrayError;

#[test]
fn len_equals_requested_count() {
    let a: Array<u8> = Array::zero(17).unwrap();
    assert_eq!(a.len(), 17);
    let b: Array<u64> = Array::new(9).unwrap();
    assert_eq!(b.len(), 9);
    let c: Array<i32> = Array::new_from_template(3, &-4).unwrap();
    assert_eq!(c.len(), 3);
}

#[test]
fn zero_fills_every_slot() {
    let a: Array<u32> = Array::zero(5).unwrap();
    for i in 0..5 {
        assert_eq!(*a.index(i).unwrap(), 0);
    }
}

#[test]
fn default_fills_every_slot() {
    let a: Array<u64> = Array::new(6).unwrap();
    for i in 0..6 {
        assert_eq!(*a.index(i).unwrap(), 0);
    }
}

#[test]
fn default_fill_large() {
    let a: Array<u32> = Array::new(4 << 20).unwrap();
    assert_eq!(*a.index(4 << 20 - 1).unwrap(), 0);
}

#[test]
fn template_fills_and_slots_are_independent() {
    let mut a: Array<i32> = Array::new_from_template(4, &7).unwrap();
    for i in 0..4 {
        assert_eq!(*a.index(i).unwrap(), 7);
    }
    a.set(2, 9).unwrap();
    assert_eq!(*a.index(0).unwrap(), 7);
    assert_eq!(*a.index(1).unwrap(), 7);
    assert_eq!(*a.index(2).unwrap(), 9);
    assert_eq!(*a.index(3).unwrap(), 7);
}

#[test]
fn write_then_read_round_trip() {
    let mut a: Array<u64> = Array::zero(8).unwrap();
    for i in 0..8 {
        a.set(i, (i as u64) * 10 + 1).unwrap();
        assert_eq!(*a.index(i).unwrap(), (i as u64) * 10 + 1);
    }
}

#[test]
fn range_view_matches_direct_reads() {
    let mut a: Array<u16> = Array::zero(10).unwrap();
    for i in 0..10 {
        a.set(i, 100 + i as u16).unwrap();
    }
    let view = a.range(2, 7).unwrap();
    assert_eq!(view.len(), 5);
    for k in 0..5 {
        assert_eq!(view[k], 100 + (2 + k) as u16);
        assert_eq!(view[k], *a.index(2 + k).unwrap());
    }
}

#[test]
fn iteration_is_complete_and_in_order() {
    let mut a: Array<u32> = Array::zero(6).unwrap();
    for i in 0..6 {
        a.set(i, (6 - i) as u32).unwrap();
    }
    let mut it = a.iter();
    let mut seen = 0;
    while let Some(v) = it.next() {
        assert_eq!(*v, *a.index(seen).unwrap());
        seen += 1;
    }
    assert_eq!(seen, 6);
    let collected = a.collect_elements();
    assert_eq!(collected, vec![6, 5, 4, 3, 2, 1]);
}

#[test]
fn iterator_len_is_exact() {
    let a: Array<u8> = Array::zero(4).unwrap();
    let mut it = a.iter();
    assert_eq!(it.len(), 4);
    it.next();
    assert_eq!(it.len(), 3);
    it.next();
    it.next();
    it.next();
    assert_eq!(it.len(), 0);
}

#[test]
fn exhausted_iterator_stays_exhausted() {
    let a: Array<u8> = Array::zero(2).unwrap();
    let mut it = a.iter();
    assert!(it.next().is_some());
    assert!(it.next().is_some());
    assert!(it.next().is_none());
    assert!(it.next().is_none());
    // A fresh iterator over the same array starts at slot 0 again.
    let mut again = a.iter();
    assert!(again.next().is_some());
}

#[test]
fn out_of_bounds_access_fails() {
    let mut a: Array<u64> = Array::zero(5).unwrap();
    assert_eq!(a.index(5).unwrap_err(), ArrayError::BoundsError);
    assert_eq!(a.index(1000).unwrap_err(), ArrayError::BoundsError);
    assert_eq!(a.set(5, 1).unwrap_err(), ArrayError::BoundsError);
    assert_eq!(a.range(0, 6).unwrap_err(), ArrayError::BoundsError);
    assert_eq!(a.range(3, 2).unwrap_err(), ArrayError::BoundsError);
    assert_eq!(a.set_range(4, &[1, 2]).unwrap_err(), ArrayError::BoundsError);
    // The failed calls left the array unchanged.
    for i in 0..5 {
        assert_eq!(*a.index(i).unwrap(), 0);
    }
}

#[test]
fn allocation_failure_on_oversized_request() {
    let z: Result<Array<u64>, ArrayError> = Array::zero(usize::MAX);
    assert_eq!(z.unwrap_err(), ArrayError::AllocationFailure);
    let d: Result<Array<u32>, ArrayError> = Array::new(usize::MAX);
    assert_eq!(d.unwrap_err(), ArrayError::AllocationFailure);
    let t: Result<Array<u16>, ArrayError> = Array::new_from_template(usize::MAX, &1);
    assert_eq!(t.unwrap_err(), ArrayError::AllocationFailure);
}

#[test]
fn construct_and_drop_many_sizes() {
    for size in [0usize, 1, 2, 3, 64, 4096] {
        let z: Array<u64> = Array::zero(size).unwrap();
        assert_eq!(z.len(), size);
        let d: Array<u32> = Array::new(size).unwrap();
        assert_eq!(d.len(), size);
        let t: Array<u8> = Array::new_from_template(size, &9).unwrap();
        assert_eq!(t.len(), size);
    }
}

#[test]
fn zero_of_five_reads_zero_at_slot_three() {
    let a: Array<u64> = Array::zero(5).unwrap();
    assert_eq!(*a.index(3).unwrap(), 0);
}

#[test]
fn empty_array_works() {
    let a: Array<u64> = Array::zero(0).unwrap();
    assert_eq!(a.len(), 0);
    let mut it = a.iter();
    assert!(it.next().is_none());
    assert_eq!(a.to_slice().len(), 0);
    assert_eq!(a.index(0).unwrap_err(), ArrayError::BoundsError);
}

#[test]
fn set_range_writes_exactly_the_range() {
    let mut a: Array<u32> = Array::zero(8).unwrap();
    a.set_range(2, &[10, 11, 12]).unwrap();
    let expected: [u32; 8] = [0, 0, 10, 11, 12, 0, 0, 0];
    for i in 0..8 {
        assert_eq!(*a.index(i).unwrap(), expected[i]);
    }
}

#[test]
fn to_slice_matches_contents() {
    let mut a: Array<i64> = Array::zero(3).unwrap();
    a.set(0, -1).unwrap();
    a.set(2, 5).unwrap();
    assert_eq!(a.to_slice(), &[-1, 0, 5]);
}
