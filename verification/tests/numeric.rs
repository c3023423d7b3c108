use libinko::numeric::{u32_from_u16_pair, FlooredDiv, Modulo};

#[test]
fn test_modulo_i64() {
    assert_eq!((-5_i64).modulo(86_400_i64), 86395_i64);
}

#[test]
fn test_modulo_i128() {
    assert_eq!((-5_i128).modulo(86_400_i128), 86_395_i128);
}

#[test]
fn test_u32_from_u16_pair() {
    assert_eq!(u32_from_u16_pair(18, 59_365), 1_239_013);
}

#[test]
fn test_floored_division_rounds_towards_negative_infinity() {
    assert_eq!((-7_i64).floored_division(2), -4);
    assert_eq!((7_i64).floored_division(-2), -4);
    assert_eq!((7_i64).floored_division(2), 3);
    assert_eq!((7_u64).floored_division(2), 3);
}

#[test]
fn test_modulo_takes_the_sign_of_the_divisor() {
    assert_eq!((5_i64).modulo(-3), -1);
    assert_eq!((-5_i64).modulo(3), 1);
    assert_eq!((5_u64).modulo(3), 2);
}

#[test]
fn test_floored_division_and_modulo_rebuild_the_dividend() {
    for (a, b) in [(-7_i64, 2_i64), (7, -2), (-9, -4), (13, 5)] {
        assert_eq!(b * a.floored_division(b) + a.modulo(b), a);
    }
}
