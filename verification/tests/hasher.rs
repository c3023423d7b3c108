use libinko::hasher::Hasher;

#[test]
fn test_write_int() {
    let mut hasher1 = Hasher::new(1, 2);
    let mut hasher2 = Hasher::new(1, 2);

    hasher1.write_int(10);
    hasher2.write_int(10);

    assert_eq!(hasher1.finish(), hasher2.finish());
}

#[test]
fn test_write_unsigned_int() {
    let mut hasher1 = Hasher::new(1, 2);
    let mut hasher2 = Hasher::new(1, 2);

    hasher1.write_unsigned_int(10);
    hasher2.write_unsigned_int(10);

    assert_eq!(hasher1.finish(), hasher2.finish());
}

#[test]
fn test_write_string() {
    let mut hasher1 = Hasher::new(1, 2);
    let mut hasher2 = Hasher::new(1, 2);
    let string = "hello".to_string();

    hasher1.write_string(&string);
    hasher2.write_string(&string);

    assert_eq!(hasher1.finish(), hasher2.finish());
}

#[test]
fn test_finish_resets_hasher() {
    let mut hasher = Hasher::new(1, 2);

    hasher.write_int(10);
    let hash1 = hasher.finish();

    hasher.write_int(10);
    let hash2 = hasher.finish();

    assert_eq!(hash1, hash2);
}

#[test]
fn test_different_keys_give_different_hashes() {
    let mut hasher1 = Hasher::new(1, 2);
    let mut hasher2 = Hasher::new(3, 4);

    hasher1.write_int(10);
    hasher2.write_int(10);

    assert_ne!(hasher1.finish(), hasher2.finish());
}

#[test]
fn test_write_float() {
    let mut hasher1 = Hasher::new(1, 2);
    let mut hasher2 = Hasher::new(1, 2);

    // A float is hashed as its bits.
    hasher1.write_unsigned_int(10.5f64.to_bits());
    hasher2.write_unsigned_int(10.5f64.to_bits());

    assert_eq!(hasher1.finish(), hasher2.finish());
}

#[test]
fn test_to_hash_resets_hasher() {
    let mut hasher = Hasher::new(1, 2);

    hasher.write_unsigned_int(10.5f64.to_bits());
    let hash1 = hasher.finish();

    hasher.write_unsigned_int(10.5f64.to_bits());
    let hash2 = hasher.finish();

    assert_eq!(hash1, hash2);
}
