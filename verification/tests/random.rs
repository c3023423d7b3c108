use libinko::external_functions::random::{
    byte_array_from_fill, random_bytes, random_incremental_integer, random_integer,
    random_integer_range,
};
use libinko::mem::allocator::{BlockAllocator, BumpAllocator, Pointer};
use libinko::mem::objects::{Int, UnsignedInt};
use libinko::mem::permanent_space::{MethodCounts, PermanentSpace};
use libinko::runtime_error::RuntimeError;

#[test]
fn test_random_integer() {
    let mut blocks = BlockAllocator::new();
    let mut alloc = BumpAllocator::new(&mut blocks);
    let perm = PermanentSpace::new(MethodCounts::default());
    let (ptr, boxed) = random_integer(&mut alloc, &mut blocks, &perm);

    // Any value may come out; reading it back must work.
    let _ = UnsignedInt::read(ptr, &boxed);
}

#[test]
fn test_random_incremental_integer() {
    let mut blocks = BlockAllocator::new();
    let mut alloc = BumpAllocator::new(&mut blocks);
    let perm = PermanentSpace::new(MethodCounts::default());
    let mut counter = 41;

    let (ptr, boxed) = random_incremental_integer(&mut alloc, &mut blocks, &perm, &mut counter);
    assert_eq!(UnsignedInt::read(ptr, &boxed), 41);
    assert_eq!(counter, 42);

    let mut last = u64::MAX;
    let (ptr, boxed) = random_incremental_integer(&mut alloc, &mut blocks, &perm, &mut last);
    assert_eq!(UnsignedInt::read(ptr, &boxed), u64::MAX);
    assert_eq!(last, 0);
}

#[test]
fn test_random_integer_range() {
    let mut blocks = BlockAllocator::new();
    let mut alloc = BumpAllocator::new(&mut blocks);
    let perm = PermanentSpace::new(MethodCounts::default());

    for _ in 0..100 {
        let (ptr, boxed) = random_integer_range(
            &mut alloc,
            &mut blocks,
            &perm,
            Pointer::integer(-3),
            &None,
            Pointer::integer(3),
            &None,
        )
        .unwrap();
        let value = Int::read(ptr, &boxed);

        assert!((-3..3).contains(&value));
    }

    let (ptr, boxed) = random_integer_range(
        &mut alloc,
        &mut blocks,
        &perm,
        Pointer::integer(7),
        &None,
        Pointer::integer(8),
        &None,
    )
    .unwrap();
    assert_eq!(Int::read(ptr, &boxed), 7);

    let error = random_integer_range(
        &mut alloc,
        &mut blocks,
        &perm,
        Pointer::integer(5),
        &None,
        Pointer::integer(-5),
        &None,
    );
    assert_eq!(
        error.err(),
        Some(RuntimeError::ErrorMessage(
            "The lower bound 5 must be lower than the upper bound -5".to_string()
        ))
    );
}

#[test]
fn test_random_bytes() {
    let mut blocks = BlockAllocator::new();
    let mut alloc = BumpAllocator::new(&mut blocks);
    let perm = PermanentSpace::new(MethodCounts::default());

    let (_, bytes) =
        random_bytes(&mut alloc, &mut blocks, &perm, Pointer::unsigned_int(16), &None).unwrap();
    assert_eq!(bytes.value().len(), 16);

    let (_, empty) =
        random_bytes(&mut alloc, &mut blocks, &perm, Pointer::unsigned_int(0), &None).unwrap();
    assert!(empty.value().is_empty());
}

#[test]
fn test_byte_array_from_fill() {
    let mut blocks = BlockAllocator::new();
    let mut alloc = BumpAllocator::new(&mut blocks);
    let perm = PermanentSpace::new(MethodCounts::default());

    let (_, bytes) =
        byte_array_from_fill(&mut alloc, &mut blocks, &perm, vec![1, 2], Ok(())).unwrap();
    assert_eq!(bytes.value(), &vec![1, 2]);

    let error = byte_array_from_fill(
        &mut alloc,
        &mut blocks,
        &perm,
        vec![1, 2],
        Err("no entropy".to_string()),
    );
    assert_eq!(error.err(), Some(RuntimeError::ErrorMessage("no entropy".to_string())));
}
