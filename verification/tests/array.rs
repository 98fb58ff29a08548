use arr::Array;
use arr::CloneValue;

#[test]
fn test_template() {
    // template: 256 * 8 = 2^11
    let template: [u64; 256] = [65u64; 256];
    // num: 4096 => total size: 2^23, too large for the stack
    let arr: Array<[u64; 256]> = Array::new_from_template(4096, &template).unwrap();
    assert_eq!(arr.index(4095).unwrap()[255], 65);
}

#[derive(Clone)]
struct Unaligned {
    a: u64,
    b: u16,
}

impl CloneValue for Unaligned {
    fn clone_value(&self) -> Unaligned {
        self.clone()
    }
}

#[test]
fn test_unaligned() {
    let unaligned_template = Unaligned { a: 15, b: 32 };
    let arr: Array<Unaligned> = Array::new_from_template(5, &unaligned_template).unwrap();
    assert_eq!(arr.index(3).unwrap().a, 15);
    assert_eq!(arr.index(3).unwrap().b, 32);
    assert_eq!(arr.index(4).unwrap().a, 15);
    assert_eq!(arr.index(4).unwrap().b, 32);
}

#[test]
fn test_zeroed() {
    // 8 * 4096 * 4096 = 8X16MB = 128MB
    let arr: Array<[usize; 4096]> = Array::zero(4096).unwrap();
    assert_eq!(arr.index(4095).unwrap()[4095], 0);
}

#[test]
fn test_loop() {
    let arr: Array<usize> = Array::new_from_template(5, &5).unwrap();
    let mut cnt = 0;
    let mut it = arr.iter();
    while let Some(_) = it.next() {
        cnt += 1;
    }
    assert_eq!(cnt, 5);
}

#[test]
fn test_copy_from() {
    let mut arr: Array<usize> = Array::new_from_template(5, &5).unwrap();
    let from: [usize; 5] = [1usize; 5];
    arr.to_slice_mut().copy_from_slice(&from);
    assert_eq!(*arr.index(4).unwrap(), 1);
}

#[test]
fn test_range() {
    let arr: Array<usize> = Array::zero(10).unwrap();
    let mut cnt = 0;
    for _i in arr.range(0, 5).unwrap() {
        cnt += 1;
    }
    assert_eq!(cnt, 5);
}

#[test]
fn test_range_mut() {
    let mut arr: Array<usize> = Array::zero(10).unwrap();
    let slice = &mut arr.to_slice_mut()[0..5];
    for i in slice {
        *i = 5;
    }
    assert_eq!(*arr.index(4).unwrap(), 5);
}
