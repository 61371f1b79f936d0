//! The quadratic behind sphere intersection.
//!
//! Substituting the ray parametrization into the implicit sphere equation
//! yields coefficients `a = dot(dir, dir)`, `b = dot(dir, origin - center)`
//! and `c = dot(origin - center, origin - center) - radius²`; the ray touches
//! the sphere at parameter `t` exactly when `a·t² + 2·b·t + c = 0`. The
//! renderer evaluates these coefficients in floating point; this module
//! states and proves the exact-arithmetic content of its first decision: a
//! negative discriminant `b² - a·c` means the quadratic has no root at all,
//! so reporting "no hit" there never discards a real intersection.

use vstd::arithmetic::mul::*;
use vstd::prelude::*;

verus! {

/// The sphere-intersection quadratic `a·t² + 2·b·t + c`, evaluated at the
/// rational parameter `t = p / q` and scaled by `q²` to stay in the integers.
pub open spec fn hit_quadratic(a: int, b: int, c: int, p: int, q: int) -> int {
    a * p * p + 2 * b * p * q + c * q * q
}

/// A square is never negative.
proof fn lemma_square_nonneg(x: int)
    ensures
        0 <= x * x,
{
    if 0 <= x {
        lemma_mul_nonnegative(x, x);
    } else {
        lemma_mul_cancels_negatives(x, x);
        lemma_mul_nonnegative(-x, -x);
    }
}

/// The square of a nonzero value is strictly positive.
proof fn lemma_square_positive(x: int)
    requires
        x != 0,
    ensures
        0 < x * x,
{
    if 0 < x {
        lemma_mul_strictly_positive(x, x);
    } else {
        lemma_mul_cancels_negatives(x, x);
        lemma_mul_strictly_positive(-x, -x);
    }
}

/// A product of values bounded by `m` in magnitude is bounded by `m²`.
proof fn lemma_abs_product_bound(x: int, y: int, m: int)
    requires
        -m <= x <= m,
        -m <= y <= m,
    ensures
        -(m * m) <= x * y <= m * m,
{
    lemma_mul_nonnegative(m, m);
    if 0 <= x && 0 <= y {
        lemma_mul_nonnegative(x, y);
        lemma_mul_upper_bound(x, m, y, m);
    } else if x < 0 && y < 0 {
        lemma_mul_cancels_negatives(x, y);
        lemma_mul_nonnegative(-x, -y);
        lemma_mul_upper_bound(-x, m, -y, m);
    } else if 0 <= x {
        lemma_mul_unary_negation(x, y);
        lemma_mul_nonnegative(x, -y);
        lemma_mul_upper_bound(x, m, -y, m);
    } else {
        lemma_mul_unary_negation(x, y);
        lemma_mul_nonnegative(-x, y);
        lemma_mul_upper_bound(-x, m, y, m);
    }
}

/// A product with a positive left factor is positive only if the right
/// factor is.
proof fn lemma_positive_product_positive_factor(a: int, x: int)
    requires
        0 < a,
        0 < a * x,
    ensures
        0 < x,
{
    if x <= 0 {
        if x == 0 {
            lemma_mul_by_zero_is_zero(a);
        } else {
            lemma_mul_strictly_positive(a, -x);
            lemma_mul_unary_negation(a, x);
        }
    }
}

/// Completing the square: `a` times the intersection quadratic equals the
/// square of `a·p + b·q` plus the negated discriminant times `q²`.
proof fn lemma_complete_the_square(a: int, b: int, c: int, p: int, q: int)
    ensures
        a * (a * p * p + 2 * b * p * q + c * q * q) == (a * p + b * q) * (a * p + b * q) + (a * c
            - b * b) * (q * q),
{
    lemma_mul_is_distributive_add(a, a * p * p + 2 * b * p * q, c * q * q);
    lemma_mul_is_distributive_add(a, a * p * p, 2 * b * p * q);
    lemma_mul_is_distributive_add_other_way(a * p + b * q, a * p, b * q);
    lemma_mul_is_distributive_add(a * p, a * p, b * q);
    lemma_mul_is_distributive_add(b * q, a * p, b * q);
    lemma_mul_is_distributive_sub_other_way(q * q, a * c, b * b);
    lemma_mul_is_associative(a, a * p, p);
    lemma_mul_is_associative(a * p, a, p);
    lemma_mul_is_commutative(a, a * p);
    lemma_mul_is_associative(2, b, p);
    lemma_mul_is_associative(2, b * p, q);
    lemma_mul_is_associative(a, 2, (b * p) * q);
    lemma_mul_is_commutative(a, 2);
    lemma_mul_is_associative(2, a, (b * p) * q);
    lemma_mul_is_associative(a, p, b * q);
    lemma_mul_is_associative(p, b, q);
    lemma_mul_is_commutative(p, b);
    lemma_mul_is_commutative(a * p, b * q);
    lemma_mul_is_associative(a, c, q * q);
    lemma_mul_is_associative(c, q, q);
    lemma_mul_is_associative(b, q, b * q);
    lemma_mul_is_associative(q, b, q);
    lemma_mul_is_commutative(q, b);
    lemma_mul_is_associative(b, q, q);
    lemma_mul_is_associative(b, b, q * q);
}

/// No-false-hits law: when the direction is non-degenerate (`a > 0`) and the
/// discriminant `b² - a·c` is negative, the quadratic is strictly positive at
/// every rational parameter — the ray stays strictly outside the sphere, and
/// a "no hit" report is sound.
pub proof fn lemma_negative_discriminant_misses(a: int, b: int, c: int, p: int, q: int)
    requires
        a > 0,
        b * b - a * c < 0,
        q != 0,
    ensures
        hit_quadratic(a, b, c, p, q) > 0,
{
    lemma_complete_the_square(a, b, c, p, q);
    lemma_square_nonneg(a * p + b * q);
    lemma_square_positive(q);
    lemma_mul_strictly_positive(a * c - b * b, q * q);
    lemma_positive_product_positive_factor(a, a * p * p + 2 * b * p * q + c * q * q);
}

/// Expanding a squared sum into its three products.
proof fn lemma_square_of_sum(x: int, y: int)
    ensures
        (x + y) * (x + y) == x * x + 2 * (x * y) + y * y,
{
    lemma_mul_is_distributive_add_other_way(x + y, x, y);
    lemma_mul_is_distributive_add(x, x, y);
    lemma_mul_is_distributive_add(y, x, y);
    lemma_mul_is_commutative(y, x);
}

/// Either closed-form root of the intersection quadratic solves it exactly.
proof fn lemma_root_case(a: int, b: int, c: int, s: int, p: int)
    requires
        s * s == b * b - a * c,
        p == -b - s || p == -b + s,
    ensures
        hit_quadratic(a, b, c, p, a) == 0,
{
    if p == -b - s {
        lemma_square_of_sum(-b, -s);
        lemma_mul_cancels_negatives(b, b);
        lemma_mul_cancels_negatives(b, s);
        lemma_mul_cancels_negatives(s, s);
        lemma_mul_is_distributive_add(2 * b, -b, -s);
    } else {
        lemma_square_of_sum(-b, s);
        lemma_mul_cancels_negatives(b, b);
        lemma_mul_unary_negation(b, s);
        lemma_mul_is_distributive_add(2 * b, -b, s);
    }
    lemma_mul_unary_negation(2 * b, b);
    lemma_mul_unary_negation(2 * b, s);
    lemma_mul_is_associative(2, b, b);
    lemma_mul_is_associative(2, b, s);
    lemma_mul_is_commutative(c, a);
    assert(p * p + (2 * b) * p + c * a == 0);
    lemma_mul_is_associative(a, p, p);
    lemma_mul_is_commutative((2 * b) * p, a);
    lemma_mul_is_commutative(c * a, a);
    lemma_mul_is_distributive_add(a, p * p, (2 * b) * p);
    lemma_mul_is_distributive_add(a, p * p + (2 * b) * p, c * a);
    lemma_mul_by_zero_is_zero(a);
}

/// Root-correctness law: when the discriminant `b² - a·c` has an exact
/// square root `s`, the two closed-form parameters `(-b - s) / a` and
/// `(-b + s) / a` both place the ray exactly on the sphere — the quadratic
/// vanishes there. The near root is the smaller of the two, which is why the
/// intersection routine tries it first.
pub proof fn lemma_roots_solve_quadratic(a: int, b: int, c: int, s: int)
    requires
        s * s == b * b - a * c,
    ensures
        hit_quadratic(a, b, c, -b - s, a) == 0,
        hit_quadratic(a, b, c, -b + s, a) == 0,
{
    lemma_root_case(a, b, c, s, -b - s);
    lemma_root_case(a, b, c, s, -b + s);
}

/// The discriminant test at the head of sphere intersection, in exact
/// integer arithmetic: whether `b² - a·c` is negative, in which case the ray
/// misses the sphere outright.
pub fn discriminant_negative(a: i64, b: i64, c: i64) -> (r: bool)
    ensures
        r == (b * b - a * c < 0),
{
    proof {
        lemma_abs_product_bound(b as int, b as int, 0x8000_0000_0000_0000);
        lemma_abs_product_bound(a as int, c as int, 0x8000_0000_0000_0000);
    }
    let bb: i128 = (b as i128) * (b as i128);
    let ac: i128 = (a as i128) * (c as i128);
    bb < ac
}

} // verus!
