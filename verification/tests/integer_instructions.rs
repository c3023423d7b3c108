use libinko::mem::allocator::{BlockAllocator, BumpAllocator, Pointer};
use libinko::mem::objects::{ClassPointer, Int, UnsignedInt};
use libinko::runtime_error::RuntimeError;
use libinko::vm::instructions::integer::{
    int_add, int_and, int_div, int_equals, int_greater, int_greater_or_equal, int_modulo,
    int_mul, int_or, int_shl, int_shr, int_smaller, int_smaller_or_equal, int_sub, int_xor,
    unsigned_int_add, unsigned_int_and, unsigned_int_div, unsigned_int_equals,
    unsigned_int_greater, unsigned_int_greater_or_equal, unsigned_int_modulo, unsigned_int_mul,
    unsigned_int_or, unsigned_int_shl, unsigned_int_shr, unsigned_int_smaller,
    unsigned_int_smaller_or_equal, unsigned_int_sub, unsigned_int_xor,
};

fn class() -> ClassPointer {
    ClassPointer::new(Pointer::new(0x10))
}

/// Applies a signed integer instruction to two values and reads the result.
fn signed(
    op: fn(
        &mut BumpAllocator,
        &mut BlockAllocator,
        ClassPointer,
        Pointer,
        &Option<Int>,
        Pointer,
        &Option<Int>,
    ) -> (Pointer, Option<Int>),
    a: i64,
    b: i64,
) -> i64 {
    let mut blocks = BlockAllocator::new();
    let mut alloc = BumpAllocator::new(&mut blocks);
    let (lp, lb) = Int::allocate(&mut alloc, &mut blocks, class(), a);
    let (rp, rb) = Int::allocate(&mut alloc, &mut blocks, class(), b);
    let (ptr, boxed) = op(&mut alloc, &mut blocks, class(), lp, &lb, rp, &rb);

    Int::read(ptr, &boxed)
}

/// Applies an unsigned integer instruction to two values and reads the
/// result.
fn unsigned(
    op: fn(
        &mut BumpAllocator,
        &mut BlockAllocator,
        ClassPointer,
        Pointer,
        &Option<UnsignedInt>,
        Pointer,
        &Option<UnsignedInt>,
    ) -> (Pointer, Option<UnsignedInt>),
    a: u64,
    b: u64,
) -> u64 {
    let mut blocks = BlockAllocator::new();
    let mut alloc = BumpAllocator::new(&mut blocks);
    let (lp, lb) = UnsignedInt::allocate(&mut alloc, &mut blocks, class(), a);
    let (rp, rb) = UnsignedInt::allocate(&mut alloc, &mut blocks, class(), b);
    let (ptr, boxed) = op(&mut alloc, &mut blocks, class(), lp, &lb, rp, &rb);

    UnsignedInt::read(ptr, &boxed)
}

#[test]
fn test_int_arithmetic() {
    assert_eq!(signed(int_add, 3, 4), 7);
    assert_eq!(signed(int_add, i64::MAX, 1), i64::MIN);
    assert_eq!(signed(int_sub, 3, 10), -7);
    assert_eq!(signed(int_sub, i64::MIN, 1), i64::MAX);
    assert_eq!(signed(int_mul, -6, 7), -42);
    assert_eq!(signed(int_mul, i64::MAX, 2), -2);
    assert_eq!(signed(int_modulo, -5, 86_400), 86_395);
    assert_eq!(signed(int_modulo, 5, -3), -1);
}

#[test]
fn test_int_bitwise() {
    assert_eq!(signed(int_and, 12, 10), 8);
    assert_eq!(signed(int_or, 12, 10), 14);
    assert_eq!(signed(int_xor, 12, 10), 6);
    assert_eq!(signed(int_shl, 1, 4), 16);
    assert_eq!(signed(int_shl, 1, 65), 2);
    assert_eq!(signed(int_shr, -16, 2), -4);
    assert_eq!(signed(int_shr, 256, 64), 256);
}

#[test]
fn test_int_div() {
    let mut blocks = BlockAllocator::new();
    let mut alloc = BumpAllocator::new(&mut blocks);
    let (lp, lb) = Int::allocate(&mut alloc, &mut blocks, class(), -7);
    let (rp, rb) = Int::allocate(&mut alloc, &mut blocks, class(), 2);
    let (zp, zb) = Int::allocate(&mut alloc, &mut blocks, class(), 0);
    let (ptr, boxed) = int_div(&mut alloc, &mut blocks, class(), lp, &lb, rp, &rb).unwrap();

    assert_eq!(Int::read(ptr, &boxed), -4);

    let error = int_div(&mut alloc, &mut blocks, class(), lp, &lb, zp, &zb);

    assert_eq!(
        error.err().unwrap(),
        RuntimeError::Panic("Integer types can't be divided by zero".to_string())
    );
}

#[test]
fn test_int_comparisons() {
    let t = Pointer::new(0x100);
    let f = Pointer::new(0x200);
    let mut blocks = BlockAllocator::new();
    let mut alloc = BumpAllocator::new(&mut blocks);
    let (a, ab) = Int::allocate(&mut alloc, &mut blocks, class(), -3);
    let (b, bb) = Int::allocate(&mut alloc, &mut blocks, class(), i64::MAX);

    assert_eq!(int_smaller(t, f, a, &ab, b, &bb), t);
    assert_eq!(int_greater(t, f, a, &ab, b, &bb), f);
    assert_eq!(int_equals(t, f, a, &ab, a, &ab), t);
    assert_eq!(int_equals(t, f, a, &ab, b, &bb), f);
    assert_eq!(int_greater_or_equal(t, f, b, &bb, b, &bb), t);
    assert_eq!(int_smaller_or_equal(t, f, b, &bb, a, &ab), f);
}

#[test]
fn test_unsigned_int_arithmetic() {
    assert_eq!(unsigned(unsigned_int_add, 3, 4), 7);
    assert_eq!(unsigned(unsigned_int_add, u64::MAX, 2), 1);
    assert_eq!(unsigned(unsigned_int_sub, 3, 4), u64::MAX);
    assert_eq!(unsigned(unsigned_int_mul, 6, 7), 42);
    assert_eq!(unsigned(unsigned_int_mul, u64::MAX, 2), u64::MAX - 1);
    assert_eq!(unsigned(unsigned_int_modulo, 17, 5), 2);
}

#[test]
fn test_unsigned_int_bitwise() {
    assert_eq!(unsigned(unsigned_int_and, 12, 10), 8);
    assert_eq!(unsigned(unsigned_int_or, 12, 10), 14);
    assert_eq!(unsigned(unsigned_int_xor, 12, 10), 6);
    assert_eq!(unsigned(unsigned_int_shl, 3, 2), 12);
    assert_eq!(unsigned(unsigned_int_shl, 1, 64), 1);
    assert_eq!(unsigned(unsigned_int_shr, u64::MAX, 60), 15);
}

#[test]
fn test_unsigned_int_div() {
    let mut blocks = BlockAllocator::new();
    let mut alloc = BumpAllocator::new(&mut blocks);
    let (lp, lb) = UnsignedInt::allocate(&mut alloc, &mut blocks, class(), 7);
    let (rp, rb) = UnsignedInt::allocate(&mut alloc, &mut blocks, class(), 2);
    let (zp, zb) = UnsignedInt::allocate(&mut alloc, &mut blocks, class(), 0);
    let (ptr, boxed) =
        unsigned_int_div(&mut alloc, &mut blocks, class(), lp, &lb, rp, &rb).unwrap();

    assert_eq!(UnsignedInt::read(ptr, &boxed), 3);

    let error = unsigned_int_div(&mut alloc, &mut blocks, class(), lp, &lb, zp, &zb);

    assert_eq!(
        error.err().unwrap(),
        RuntimeError::Panic("Integer types can't be divided by zero".to_string())
    );
}

#[test]
fn test_unsigned_int_comparisons() {
    let t = Pointer::new(0x100);
    let f = Pointer::new(0x200);
    let mut blocks = BlockAllocator::new();
    let mut alloc = BumpAllocator::new(&mut blocks);
    let (a, ab) = UnsignedInt::allocate(&mut alloc, &mut blocks, class(), 3);
    let (b, bb) = UnsignedInt::allocate(&mut alloc, &mut blocks, class(), u64::MAX);

    assert_eq!(unsigned_int_smaller(t, f, a, &ab, b, &bb), t);
    assert_eq!(unsigned_int_greater(t, f, a, &ab, b, &bb), f);
    assert_eq!(unsigned_int_equals(t, f, b, &bb, b, &bb), t);
    assert_eq!(unsigned_int_greater_or_equal(t, f, a, &ab, b, &bb), f);
    assert_eq!(unsigned_int_smaller_or_equal(t, f, a, &ab, a, &ab), t);
}
