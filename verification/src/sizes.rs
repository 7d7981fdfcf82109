//! Human-readable byte counts, exactly as `format_bytes` prints them with
//! `f64` arithmetic: the count converted to `f64`, divided by a mebibyte, and
//! shown with no decimals below a gibibyte or in gibibytes with one decimal.
//! All values involved are integers scaled by powers of two, so the result is
//! computed here with integers: `u64 as f64` rounds to 53 significant bits
//! (ties to even), division by a power of two is exact, and fixed-precision
//! `Display` rounds the exact value half to even.

use vstd::prelude::*;
use vstd::string::*;
use vstd::arithmetic::div_mod::{lemma_fundamental_div_mod, lemma_div_denominator, lemma_div_is_ordered};
use crate::text::{decimal, decimal_text};

verus! {

pub const MEBIBYTE: u64 = 1048576;

pub const GIBIBYTE: u64 = 1073741824;

/// Largest count that `f64` holds exactly below the next power of two.
pub const F64_EXACT_LIMIT: u64 = 0x20000000000000;

/// `n / d` rounded to the nearest integer, ties to the even one.
pub open spec fn round_half_even(n: nat, d: nat) -> nat {
    let q = n / d;
    let r = n % d;
    if 2 * r > d || (2 * r == d && q % 2 == 1) {
        q + 1
    } else {
        q
    }
}

/// The power of two at which `b` is rounded when converted to `f64`.
pub open spec fn f64_step(b: nat) -> nat
    decreases b,
{
    if b < F64_EXACT_LIMIT {
        1
    } else {
        2 * f64_step(b / 2)
    }
}

/// The value of `b as f64`.
pub open spec fn as_f64(b: nat) -> nat {
    round_half_even(b, f64_step(b)) * f64_step(b)
}

/// The gibibytes shown for `b` bytes, in tenths (`{:.1}` of `b as f64 / 2^30`).
pub open spec fn gb_tenths(b: nat) -> nat {
    round_half_even(as_f64(b) * 10, GIBIBYTE as nat)
}

/// The mebibytes shown for `b` bytes (`{:.0}` of `b as f64 / 2^20`).
pub open spec fn mb_count(b: nat) -> nat {
    round_half_even(b, MEBIBYTE as nat)
}

/// What `format_bytes` prints for `b` bytes.
pub open spec fn format_bytes_spec(b: nat) -> Seq<char> {
    if b >= GIBIBYTE {
        decimal(gb_tenths(b) / 10) + "."@ + decimal(gb_tenths(b) % 10) + " GB"@
    } else {
        decimal(mb_count(b)) + " MB"@
    }
}

/// The amount that `format_bytes` prints for `b` bytes, in tenths of a
/// mebibyte: `x MB` stands for 10·x and `y GB` for 1024·(10·y).
pub open spec fn shown_tenths_of_mebibytes(b: nat) -> nat {
    if b >= GIBIBYTE {
        gb_tenths(b) * 1024
    } else {
        mb_count(b) * 10
    }
}

fn divide_half_even(n: u128, d: u128) -> (r: u128)
    requires
        d > 0,
        n < 0x10000000000000000000000000,
    ensures
        r == round_half_even(n as nat, d as nat),
{
    let q = n / d;
    let m = n % d;
    proof {
        assert(q <= n) by (nonlinear_arith)
            requires
                q == n / d,
                d > 0,
        ;
    }
    if m > d - m || (m == d - m && q % 2 == 1) {
        q + 1
    } else {
        q
    }
}

proof fn lemma_step_positive(b: nat)
    ensures
        f64_step(b) >= 1,
    decreases b,
{
    if b >= F64_EXACT_LIMIT {
        lemma_step_positive(b / 2);
    }
}

proof fn lemma_rounded_bound(n: nat, d: nat)
    requires
        d > 0,
    ensures
        round_half_even(n, d) * d <= n + d,
{
    lemma_fundamental_div_mod(n as int, d as int);
    let q = n / d;
    assert(q * d <= n) by (nonlinear_arith)
        requires
            n == d * q + n % d,
            n % d >= 0,
    ;
    assert((q + 1) * d == q * d + d) by (nonlinear_arith);
}

/// The value of `b as f64`, computed exactly.
fn f64_value(b: u64) -> (r: u128)
    ensures
        r == as_f64(b as nat),
        r <= 2 * (b as nat) + 1,
{
    let mut c: u64 = b;
    let mut s: u128 = 1;
    while c >= F64_EXACT_LIMIT
        invariant
            s >= 1,
            s <= b as u128 + 1,
            c == b as nat / s as nat,
            f64_step(b as nat) == s * f64_step(c as nat),
        decreases c,
    {
        proof {
            lemma_div_denominator(b as int, s as int, 2);
            lemma_fundamental_div_mod(b as int, s as int);
            assert(2 * s <= b) by (nonlinear_arith)
                requires
                    b == s * c + (b as int) % (s as int),
                    (b as int) % (s as int) >= 0,
                    c >= 2,
                    s >= 1,
            ;
            assert(f64_step(c as nat) == 2 * f64_step(c as nat / 2));
            assert(s * (2 * f64_step(c as nat / 2)) == (s * 2) * f64_step(c as nat / 2))
                by (nonlinear_arith);
        }
        c = c / 2;
        s = s * 2;
    }
    assert(f64_step(c as nat) == 1);
    assert(s * f64_step(c as nat) == s) by (nonlinear_arith)
        requires
            f64_step(c as nat) == 1,
    ;
    assert(f64_step(b as nat) == s);
    proof {
        lemma_rounded_bound(b as nat, s as nat);
    }
    let q = divide_half_even(b as u128, s);
    assert(q * s <= b + s);
    q * s
}

/// A byte count for people: whole mebibytes below one gibibyte, gibibytes
/// with one decimal from there on, rounded as the `f64` computation rounds.
pub fn format_bytes(bytes: u64) -> (r: String)
    ensures
        r@ == format_bytes_spec(bytes as nat),
{
    if bytes >= GIBIBYTE {
        let x = f64_value(bytes);
        let tenths = divide_half_even(x * 10, GIBIBYTE as u128);
        let mut r = decimal_text(tenths / 10);
        r.append(".");
        let frac = decimal_text(tenths % 10);
        r.append(frac.as_str());
        r.append(" GB");
        r
    } else {
        let mb = divide_half_even(bytes as u128, MEBIBYTE as u128);
        let mut r = decimal_text(mb);
        r.append(" MB");
        r
    }
}

/// Counts below one gibibyte print in whole mebibytes and counts from one
/// gibibyte on print in gibibytes with one decimal; counts below 2^53 bytes
/// are taken exactly.
pub proof fn lemma_format_bytes_units(b: nat)
    ensures
        b < GIBIBYTE ==> format_bytes_spec(b) == decimal(round_half_even(b, MEBIBYTE as nat))
            + " MB"@,
        b < F64_EXACT_LIMIT ==> as_f64(b) == b,
{
    if b < F64_EXACT_LIMIT {
        assert(f64_step(b) == 1);
        assert(b / 1 == b);
        assert(b % 1 == 0);
    }
}

proof fn lemma_round_monotone(n1: nat, n2: nat, d: nat)
    requires
        d > 0,
        n1 <= n2,
    ensures
        round_half_even(n1, d) <= round_half_even(n2, d),
{
    lemma_div_is_ordered(n1 as int, n2 as int, d as int);
    lemma_fundamental_div_mod(n1 as int, d as int);
    lemma_fundamental_div_mod(n2 as int, d as int);
    let q1 = n1 / d;
    let q2 = n2 / d;
    if q1 == q2 {
        assert(n1 % d <= n2 % d);
    }
}

proof fn lemma_round_bounds(n: nat, d: nat)
    requires
        d > 0,
    ensures
        n / d <= round_half_even(n, d) <= n / d + 1,
{
}

/// Half of the largest exactly held count: the least value of `b / f64_step(b)`
/// once rounding starts.
pub const F64_HALF_LIMIT: u64 = 0x10000000000000;

proof fn lemma_step_shape(b: nat)
    ensures
        f64_step(b) >= 1,
        b < F64_EXACT_LIMIT * f64_step(b),
        b >= F64_EXACT_LIMIT ==> F64_HALF_LIMIT * f64_step(b) <= b,
    decreases b,
{
    lemma_step_positive(b);
    if b >= F64_EXACT_LIMIT {
        let c = b / 2;
        lemma_step_shape(c);
        let s1 = f64_step(c);
        assert(f64_step(b) == 2 * s1);
        assert(b == 2 * c + b % 2);
        if c < F64_EXACT_LIMIT {
            assert(s1 == 1);
        } else {
            assert(c <= F64_EXACT_LIMIT * s1 - 1);
        }
    }
}

proof fn lemma_step_order(a: nat, b: nat)
    requires
        a <= b,
    ensures
        f64_step(a) == f64_step(b) || 2 * f64_step(a) <= f64_step(b),
    decreases b,
{
    if b < F64_EXACT_LIMIT {
    } else if a < F64_EXACT_LIMIT {
        lemma_step_positive(b / 2);
    } else {
        lemma_step_order(a / 2, b / 2);
    }
}

proof fn lemma_as_f64_monotone(a: nat, b: nat)
    requires
        a <= b,
    ensures
        as_f64(a) <= as_f64(b),
{
    lemma_step_order(a, b);
    lemma_step_shape(a);
    lemma_step_shape(b);
    let sa = f64_step(a);
    let sb = f64_step(b);
    let ra = round_half_even(a, sa);
    let rb = round_half_even(b, sb);
    if sa == sb {
        lemma_round_monotone(a, b, sa);
        assert(ra * sa <= rb * sa) by (nonlinear_arith)
            requires
                ra <= rb,
        ;
    } else {
        assert(b >= F64_EXACT_LIMIT);
        lemma_round_bounds(a, sa);
        lemma_round_bounds(b, sb);
        lemma_fundamental_div_mod(a as int, sa as int);
        lemma_fundamental_div_mod(b as int, sb as int);
        assert(a / sa < F64_EXACT_LIMIT) by (nonlinear_arith)
            requires
                a == sa * (a / sa) + a % sa,
                a % sa >= 0,
                a < F64_EXACT_LIMIT * sa,
                sa >= 1,
        ;
        assert(b / sb >= F64_HALF_LIMIT) by (nonlinear_arith)
            requires
                b == sb * (b / sb) + b % sb,
                b % sb < sb,
                F64_HALF_LIMIT * sb <= b,
                sb >= 1,
        ;
        assert(ra * sa <= F64_EXACT_LIMIT * sa) by (nonlinear_arith)
            requires
                ra <= F64_EXACT_LIMIT,
                sa >= 1,
        ;
        assert(rb * sb >= F64_HALF_LIMIT * sb) by (nonlinear_arith)
            requires
                rb >= F64_HALF_LIMIT,
                sb >= 1,
        ;
        assert(F64_HALF_LIMIT * sb >= F64_EXACT_LIMIT * sa) by (nonlinear_arith)
            requires
                2 * sa <= sb,
        ;
    }
}

/// The amount `format_bytes` prints never decreases as the byte count grows;
/// `1024 MB` below one gibibyte meets `1.0 GB` at it.
pub proof fn lemma_format_bytes_monotone(a: nat, b: nat)
    requires
        a <= b,
    ensures
        shown_tenths_of_mebibytes(a) <= shown_tenths_of_mebibytes(b),
{
    let mib = MEBIBYTE as nat;
    let gib = GIBIBYTE as nat;
    if b < gib {
        lemma_round_monotone(a, b, mib);
    } else if a >= gib {
        lemma_as_f64_monotone(a, b);
        lemma_round_monotone(as_f64(a) * 10, as_f64(b) * 10, gib);
    } else {
        lemma_round_bounds(a, mib);
        lemma_div_is_ordered(a as int, gib as int - 1, mib as int);
        assert((gib as int - 1) / (mib as int) == 1023);
        assert(mb_count(a) <= 1024);
        lemma_as_f64_monotone(gib, b);
        lemma_format_bytes_units(gib);
        assert(as_f64(b) * 10 >= 10 * gib);
        lemma_div_is_ordered(10 * gib as int, (as_f64(b) * 10) as int, gib as int);
        assert((10 * gib) / gib == 10);
        lemma_round_bounds(as_f64(b) * 10, gib);
        assert(gb_tenths(b) >= 10);
    }
}

} // verus!
