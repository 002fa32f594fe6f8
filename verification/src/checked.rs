//! Integer arithmetic as a debug build of Rust performs it, lifted over
//! `Option`: `None` stands for an operation that overflows (where a debug
//! build panics), and it propagates through every later operation.
//! Shifts never overflow in this sense: `<<` drops the bits shifted out and
//! `>>` is an arithmetic shift, exactly as Rust's operators on signed types.

use vstd::prelude::*;

verus! {

pub open spec fn fits_i32(v: int) -> bool {
    i32::MIN <= v <= i32::MAX
}

pub open spec fn fits_i64(v: int) -> bool {
    i64::MIN <= v <= i64::MAX
}

pub open spec fn in_i32(v: int) -> Option<i32> {
    if fits_i32(v) { Some(v as i32) } else { None }
}

pub open spec fn in_i64(v: int) -> Option<i64> {
    if fits_i64(v) { Some(v as i64) } else { None }
}

pub open spec fn add32(a: Option<i32>, b: Option<i32>) -> Option<i32> {
    match (a, b) {
        (Some(x), Some(y)) => in_i32(x + y),
        _ => None,
    }
}

pub open spec fn sub32(a: Option<i32>, b: Option<i32>) -> Option<i32> {
    match (a, b) {
        (Some(x), Some(y)) => in_i32(x - y),
        _ => None,
    }
}

pub open spec fn mul32(a: Option<i32>, b: Option<i32>) -> Option<i32> {
    match (a, b) {
        (Some(x), Some(y)) => in_i32(x * y),
        _ => None,
    }
}

pub open spec fn shr32(a: Option<i32>, n: u32) -> Option<i32> {
    match a {
        Some(x) => Some(x >> n),
        None => None,
    }
}

pub open spec fn shl32(a: Option<i32>, n: u32) -> Option<i32> {
    match a {
        Some(x) => Some(x << n),
        None => None,
    }
}

pub open spec fn add64(a: Option<i64>, b: Option<i64>) -> Option<i64> {
    match (a, b) {
        (Some(x), Some(y)) => in_i64(x + y),
        _ => None,
    }
}

pub open spec fn sub64(a: Option<i64>, b: Option<i64>) -> Option<i64> {
    match (a, b) {
        (Some(x), Some(y)) => in_i64(x - y),
        _ => None,
    }
}

pub open spec fn mul64(a: Option<i64>, b: Option<i64>) -> Option<i64> {
    match (a, b) {
        (Some(x), Some(y)) => in_i64(x * y),
        _ => None,
    }
}

pub open spec fn shr64(a: Option<i64>, n: u32) -> Option<i64> {
    match a {
        Some(x) => Some(x >> n),
        None => None,
    }
}

pub open spec fn shl64(a: Option<i64>, n: u32) -> Option<i64> {
    match a {
        Some(x) => Some(x << n),
        None => None,
    }
}

/// Division rounding toward zero, as Rust's `/` on signed integers.
pub open spec fn trunc_div(x: int, d: int) -> int {
    if x == 0 {
        0
    } else if x > 0 && d > 0 {
        x / d
    } else if x < 0 && d < 0 {
        (-x) / (-d)
    } else if x < 0 {
        -((-x) / d)
    } else {
        -(x / (-d))
    }
}

/// Rust's `/` on `i64`; the divisor is never zero where it is used.
pub open spec fn div64(a: Option<i64>, b: Option<i64>) -> Option<i64> {
    match (a, b) {
        (Some(x), Some(y)) => if y == 0 { None } else { in_i64(trunc_div(x as int, y as int)) },
        _ => None,
    }
}

} // verus!
