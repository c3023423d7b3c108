//! Floored division, modulo and integer packing helpers.
use vstd::prelude::*;

verus! {

/// Returns a `u32` whose upper half is `a` and whose lower half is `b`.
pub fn u32_from_u16_pair(a: u16, b: u16) -> (r: u32)
    ensures
        r == a as int * 65536 + b as int,
{
    let hi: u32 = a as u32;
    let lo: u32 = b as u32;
    let r: u32 = (hi << 16u32) | (lo & 0xFFFFu32);
    assert(r == hi * 65536 + lo) by (bit_vector)
        requires
            hi < 65536u32,
            lo < 65536u32,
            r == (hi << 16u32) | (lo & 0xFFFFu32),
    ;
    r
}

/// The absolute value of `a`.
pub open spec fn abs(a: int) -> int {
    if a < 0 {
        -a
    } else {
        a
    }
}

/// The floor of `a / b`, for a non-zero `b`.
pub open spec fn floor_div(a: int, b: int) -> int {
    if b > 0 {
        a / b
    } else {
        (-a) / (-b)
    }
}

/// The modulo of `a` and `b`: the remainder of a floored division, which has
/// the sign of `b` (for a non-zero `b`).
pub open spec fn floor_mod(a: int, b: int) -> int {
    a - b * floor_div(a, b)
}

/// The remainder of a division that rounds towards zero (Rust's `%`), for a
/// non-zero `b`. The result has the sign of `a`.
pub open spec fn trunc_rem(a: int, b: int) -> int {
    if a < 0 {
        -(abs(a) % abs(b))
    } else {
        abs(a) % abs(b)
    }
}

/// Floored integer divisions.
pub trait FlooredDiv: Sized {
    /// Holds when `self.floored_division(rhs)` is defined and representable.
    spec fn floored_division_defined(self, rhs: Self) -> bool;

    /// The value of `self.floored_division(rhs)`.
    spec fn floored_division_spec(self, rhs: Self) -> Self;

    /// Divides `self` by `rhs`, rounding towards negative infinity.
    fn floored_division(self, rhs: Self) -> (r: Self)
        requires
            self.floored_division_defined(rhs),
        ensures
            r == self.floored_division_spec(rhs),
    ;
}

/// The modulo (instead of the remainder) of a number.
pub trait Modulo: Sized {
    /// Holds when `self.modulo(rhs)` is defined and representable.
    spec fn modulo_defined(self, rhs: Self) -> bool;

    /// The value of `self.modulo(rhs)`.
    spec fn modulo_spec(self, rhs: Self) -> Self;

    /// Returns the modulo of `self` and `rhs`, which has the sign of `rhs`.
    fn modulo(self, rhs: Self) -> (r: Self)
        requires
            self.modulo_defined(rhs),
        ensures
            r == self.modulo_spec(rhs),
    ;
}

/// Floored division on `i128` values with a positive divisor.
fn floor_div_positive(a: i128, b: i128) -> (r: i128)
    requires
        b > 0,
        a > i128::MIN,
    ensures
        r == floor_div(a as int, b as int),
{
    let d: i128 = a / b;
    let m: i128 = a % b;
    if m < 0 {
        assert(floor_div(a as int, b as int) == d - 1) by (nonlinear_arith)
            requires
                b > 0,
                a < 0,
                d == -((-(a as int)) / (b as int)),
                m == -((-(a as int)) % (b as int)),
                m < 0,
        ;
        d - 1
    } else {
        assert(floor_div(a as int, b as int) == d) by (nonlinear_arith)
            requires
                b > 0,
                (a >= 0 ==> d == (a as int) / (b as int) && m == (a as int) % (b as int)),
                (a < 0 ==> d == -((-(a as int)) / (b as int)) && m == -((-(a as int)) % (b as int))),
                m >= 0,
        ;
        d
    }
}

impl FlooredDiv for i64 {
    open spec fn floored_division_defined(self, rhs: i64) -> bool {
        rhs != 0 && !(self == i64::MIN && rhs == -1)
    }

    open spec fn floored_division_spec(self, rhs: i64) -> i64 {
        floor_div(self as int, rhs as int) as i64
    }

    fn floored_division(self, rhs: i64) -> (r: i64) {
        let a: i128 = self as i128;
        let b: i128 = rhs as i128;
        let q: i128 = if b > 0 {
            floor_div_positive(a, b)
        } else {
            floor_div_positive(-a, -b)
        };
        proof {
            if b < 0 {
                assert(floor_div(-(a as int), -(b as int)) == floor_div(a as int, b as int));
            }
            lemma_floor_div_bounds(a as int, b as int);
        }
        q as i64
    }
}

/// Bounds on a floored division, used to show that it fits in the input type.
proof fn lemma_floor_div_bounds(a: int, b: int)
    requires
        b != 0,
    ensures
        abs(floor_div(a, b)) <= abs(a) + 1,
        a >= 0 && b > 0 ==> 0 <= floor_div(a, b) <= a,
        (b == 1 ==> floor_div(a, b) == a),
        (b == -1 ==> floor_div(a, b) == -a),
        abs(b) >= 2 ==> abs(floor_div(a, b)) <= abs(a) / 2 + 1,
{
    if b > 0 {
        assert(abs(a / b) <= abs(a) + 1) by (nonlinear_arith)
            requires b > 0;
        assert(a >= 0 ==> 0 <= a / b <= a) by (nonlinear_arith)
            requires b > 0;
        assert(b >= 2 ==> abs(a / b) <= abs(a) / 2 + 1) by (nonlinear_arith)
            requires b > 0;
    } else {
        assert(abs((-a) / (-b)) <= abs(a) + 1) by (nonlinear_arith)
            requires b < 0;
        assert(b <= -2 ==> abs((-a) / (-b)) <= abs(a) / 2 + 1) by (nonlinear_arith)
            requires b < 0;
        if b == -1 {
            assert((-a) / 1 == -a);
        }
    }
}

impl FlooredDiv for u64 {
    open spec fn floored_division_defined(self, rhs: u64) -> bool {
        rhs != 0
    }

    open spec fn floored_division_spec(self, rhs: u64) -> u64 {
        floor_div(self as int, rhs as int) as u64
    }

    fn floored_division(self, rhs: u64) -> (r: u64) {
        // For unsigned integers the floored division is the regular division.
        self / rhs
    }
}

/// Rust's remainder with a positive divisor, on `i128` values.
fn rem_positive(a: i128, m: i128) -> (r: i128)
    requires
        m > 0,
    ensures
        r == trunc_rem(a as int, m as int),
        forall|b: int| b == m || b == -m ==> r == trunc_rem(a as int, b),
{
    a % m
}

/// Rust's remainder with a divisor of `i128::MIN`.
fn rem_min(a: i128) -> (r: i128)
    ensures
        r == trunc_rem(a as int, i128::MIN as int),
{
    proof {
        let m: int = 0x8000_0000_0000_0000_0000_0000_0000_0000;
        assert(i128::MIN as int == -m);
        if a == i128::MIN {
            vstd::arithmetic::div_mod::lemma_fundamental_div_mod_converse(m, m, 1, 0);
        } else {
            vstd::arithmetic::div_mod::lemma_small_mod(abs(a as int) as nat, m as nat);
        }
    }
    if a == i128::MIN {
        0
    } else {
        a
    }
}

impl Modulo for i64 {
    open spec fn modulo_defined(self, rhs: i64) -> bool {
        &&& rhs != 0
        &&& !(self == i64::MIN && rhs == -1)
        &&& i64::MIN <= trunc_rem(self as int, rhs as int) + rhs <= i64::MAX
    }

    open spec fn modulo_spec(self, rhs: i64) -> i64 {
        floor_mod(self as int, rhs as int) as i64
    }

    fn modulo(self, rhs: i64) -> (r: i64) {
        let a: i128 = self as i128;
        let b: i128 = rhs as i128;
        let m: i128 = if b < 0 {
            -b
        } else {
            b
        };
        let x: i128 = rem_positive(a, m);
        let y: i128 = x + b;
        let z: i128 = rem_positive(y, m);
        proof {
            lemma_rem_rem_is_floor_mod(a as int, b as int);
        }
        z as i64
    }
}

impl Modulo for u64 {
    open spec fn modulo_defined(self, rhs: u64) -> bool {
        rhs != 0 && (self % rhs) + rhs <= u64::MAX
    }

    open spec fn modulo_spec(self, rhs: u64) -> u64 {
        floor_mod(self as int, rhs as int) as u64
    }

    fn modulo(self, rhs: u64) -> (r: u64) {
        let r: u64 = ((self % rhs) + rhs) % rhs;
        proof {
            lemma_rem_rem_is_floor_mod(self as int, rhs as int);
        }
        r
    }
}

impl Modulo for i128 {
    open spec fn modulo_defined(self, rhs: i128) -> bool {
        &&& rhs != 0
        &&& !(self == i128::MIN && rhs == -1)
        &&& i128::MIN <= trunc_rem(self as int, rhs as int) + rhs <= i128::MAX
    }

    open spec fn modulo_spec(self, rhs: i128) -> i128 {
        floor_mod(self as int, rhs as int) as i128
    }

    fn modulo(self, rhs: i128) -> (r: i128) {
        proof {
            lemma_rem_rem_is_floor_mod(self as int, rhs as int);
        }
        if rhs == i128::MIN {
            let x: i128 = rem_min(self);
            let y: i128 = x + rhs;
            rem_min(y)
        } else {
            let m: i128 = if rhs < 0 {
                -rhs
            } else {
                rhs
            };
            let x: i128 = rem_positive(self, m);
            let y: i128 = x + rhs;
            rem_positive(y, m)
        }
    }
}

/// Floored division and modulo agree: `a == b * floored_division(a, b) +
/// modulo(a, b)`, and the modulo lies between zero and the divisor.
pub proof fn lemma_floored_division_modulo(a: i64, b: i64)
    requires
        a.floored_division_defined(b),
        a.modulo_defined(b),
    ensures
        a == b * a.floored_division_spec(b) + a.modulo_spec(b),
        b > 0 ==> 0 <= a.modulo_spec(b) < b,
        b < 0 ==> b < a.modulo_spec(b) <= 0,
{
    lemma_floor_div_bounds(a as int, b as int);
    lemma_rem_rem_is_floor_mod(a as int, b as int);
    lemma_floor_mod_bounds(a as int, b as int);
}

/// The floored modulo lies between zero and the divisor.
proof fn lemma_floor_mod_bounds(a: int, b: int)
    requires
        b != 0,
    ensures
        b > 0 ==> 0 <= floor_mod(a, b) < b,
        b < 0 ==> b < floor_mod(a, b) <= 0,
{
    if b > 0 {
        vstd::arithmetic::div_mod::lemma_fundamental_div_mod(a, b);
        assert(0 <= a % b < b) by (nonlinear_arith) requires b > 0;
    } else {
        vstd::arithmetic::div_mod::lemma_fundamental_div_mod(-a, -b);
        assert(0 <= (-a) % (-b) < -b) by (nonlinear_arith) requires b < 0;
        assert(b * ((-a) / (-b)) == -((-b) * ((-a) / (-b)))) by (nonlinear_arith);
    }
}

/// The two-step modulo `((a % b) + b) % b` computes the floored modulo.
proof fn lemma_rem_rem_is_floor_mod(a: int, b: int)
    requires
        b != 0,
    ensures
        trunc_rem(trunc_rem(a, b) + b, b) == floor_mod(a, b),
        abs(trunc_rem(a, b)) < abs(b),
{
    let m = abs(b);
    let q = abs(a) / m;
    let r = abs(a) % m;
    vstd::arithmetic::div_mod::lemma_fundamental_div_mod(abs(a), m);
    assert(0 <= r < m) by (nonlinear_arith)
        requires m > 0, r == abs(a) % m;
    assert(q * m == m * q) by (nonlinear_arith);
    assert(abs(a) == q * m + r);
    assert((-q) * m == -(q * m)) by (nonlinear_arith);
    assert((-q - 1) * m == -(q * m) - m) by (nonlinear_arith);
    assert(m * (-q) == -(q * m)) by (nonlinear_arith);
    assert(m * (-q - 1) == -(q * m) - m) by (nonlinear_arith);
    assert(b * q == (if b > 0 { q * m } else { -(q * m) })) by (nonlinear_arith)
        requires m == (if b < 0 { -b } else { b });
    assert(b * (-q) == (if b > 0 { -(q * m) } else { q * m })) by (nonlinear_arith)
        requires m == (if b < 0 { -b } else { b });
    assert(b * (-q - 1) == (if b > 0 { -(q * m) - m } else { q * m + m })) by (nonlinear_arith)
        requires m == (if b < 0 { -b } else { b });
    if b > 0 {
        if a >= 0 {
            vstd::arithmetic::div_mod::lemma_fundamental_div_mod_converse(r + m, m, 1, r);
            vstd::arithmetic::div_mod::lemma_fundamental_div_mod_converse(a, m, q, r);
        } else if r == 0 {
            vstd::arithmetic::div_mod::lemma_fundamental_div_mod_converse(m, m, 1, 0);
            vstd::arithmetic::div_mod::lemma_fundamental_div_mod_converse(a, m, -q, 0);
        } else {
            vstd::arithmetic::div_mod::lemma_fundamental_div_mod_converse(m - r, m, 0, m - r);
            vstd::arithmetic::div_mod::lemma_fundamental_div_mod_converse(a, m, -q - 1, m - r);
        }
    } else {
        if a >= 0 {
            if r == 0 {
                vstd::arithmetic::div_mod::lemma_fundamental_div_mod_converse(m, m, 1, 0);
                vstd::arithmetic::div_mod::lemma_fundamental_div_mod_converse(-a, m, -q, 0);
            } else {
                vstd::arithmetic::div_mod::lemma_fundamental_div_mod_converse(m - r, m, 0, m - r);
                vstd::arithmetic::div_mod::lemma_fundamental_div_mod_converse(-a, m, -q - 1, m - r);
            }
        } else {
            vstd::arithmetic::div_mod::lemma_fundamental_div_mod_converse(r + m, m, 1, r);
            vstd::arithmetic::div_mod::lemma_fundamental_div_mod_converse(-a, m, q, r);
        }
    }
}

} // verus!
