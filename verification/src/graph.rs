//! Parameter rules of the random graph generators.
//!
//! The generators themselves live in the optimization core; what is decided
//! here is which integer parameters each generator accepts, in the order the
//! checks are made, and the message of each refusal.

use vstd::prelude::*;
use crate::text::{decimal, push_decimal, push_signed_decimal, signed_decimal};

verus! {

/// Largest integer magnitude that survives a round trip through `f32` (2^24);
/// weight bounds beyond it are refused.
pub const MAX_EXACT_F32_INT: u64 = 16_777_216;

/// A refused integer parameter of a graph generator.
#[derive(Clone, Copy, Debug, PartialEq, Eq)]
pub enum GraphParamError {
    /// `n` is 0 (Erdős-Rényi).
    NZero,
    /// `m` is 0 (Barabási-Albert).
    MZero,
    /// `m >= n` (Barabási-Albert).
    MNotBelowN { m: usize, n: usize },
    /// `k` is 0 (Watts-Strogatz).
    KZero,
    /// `k` is odd (Watts-Strogatz).
    KOdd { k: usize },
    /// `k >= n` (Watts-Strogatz).
    KNotBelowN { k: usize, n: usize },
    /// The weight range has `min > max`.
    WeightRangeReversed { min: i64, max: i64 },
    /// The weight range is `(0, 0)`, which holds no nonzero weight.
    WeightRangeZero,
    /// A bound of the weight range exceeds 2^24 in magnitude.
    WeightRangeTooWide { min: i64, max: i64 },
}

/// `|x|` as a mathematical integer.
pub open spec fn magnitude(x: int) -> int {
    if x < 0 {
        -x
    } else {
        x
    }
}

/// Outcome of the integer checks of `Graph.erdos_renyi(n, p)`.
pub open spec fn erdos_renyi_check(n: usize) -> Result<(), GraphParamError> {
    if n == 0 {
        Err(GraphParamError::NZero)
    } else {
        Ok(())
    }
}

/// Outcome of the checks of `Graph.barabasi_albert(n, m)`.
pub open spec fn barabasi_albert_check(n: usize, m: usize) -> Result<(), GraphParamError> {
    if m == 0 {
        Err(GraphParamError::MZero)
    } else if m >= n {
        Err(GraphParamError::MNotBelowN { m, n })
    } else {
        Ok(())
    }
}

/// Outcome of the integer checks of `Graph.watts_strogatz(n, k, beta)`.
pub open spec fn watts_strogatz_check(n: usize, k: usize) -> Result<(), GraphParamError> {
    if k == 0 {
        Err(GraphParamError::KZero)
    } else if k % 2 != 0 {
        Err(GraphParamError::KOdd { k })
    } else if k >= n {
        Err(GraphParamError::KNotBelowN { k, n })
    } else {
        Ok(())
    }
}

/// Outcome of the checks of `Graph.with_random_weights((min, max))`.
pub open spec fn weight_range_check(min: i64, max: i64) -> Result<(), GraphParamError> {
    if min > max {
        Err(GraphParamError::WeightRangeReversed { min, max })
    } else if min == 0 && max == 0 {
        Err(GraphParamError::WeightRangeZero)
    } else if magnitude(min as int) > MAX_EXACT_F32_INT || magnitude(max as int)
        > MAX_EXACT_F32_INT {
        Err(GraphParamError::WeightRangeTooWide { min, max })
    } else {
        Ok(())
    }
}

/// The message of a refused parameter.
pub open spec fn graph_error_message(e: GraphParamError) -> Seq<char> {
    match e {
        GraphParamError::NZero => "'n' must be at least 1"@,
        GraphParamError::MZero => "'m' must be at least 1"@,
        GraphParamError::MNotBelowN { m, n } => "'m' must be less than 'n', got m="@ + decimal(
            m as nat,
        ) + ", n="@ + decimal(n as nat),
        GraphParamError::KZero => "'k' must be at least 1"@,
        GraphParamError::KOdd { k } => "'k' must be even, got "@ + decimal(k as nat),
        GraphParamError::KNotBelowN { k, n } => "'k' must be less than 'n', got k="@ + decimal(
            k as nat,
        ) + ", n="@ + decimal(n as nat),
        GraphParamError::WeightRangeReversed { min, max } => "'weight_range' min ("@
            + signed_decimal(min as int) + ") must be <= max ("@ + signed_decimal(max as int)
            + ")"@,
        GraphParamError::WeightRangeZero => "'weight_range' (0, 0) contains no nonzero weight"@,
        GraphParamError::WeightRangeTooWide { min, max } => "'weight_range' ("@ + signed_decimal(
            min as int,
        ) + ", "@ + signed_decimal(max as int)
            + ") exceeds the exactly f32-representable range of +/-"@ + decimal(
            MAX_EXACT_F32_INT as nat,
        ),
    }
}

impl GraphParamError {
    /// The human-readable message of this refusal.
    pub fn message(&self) -> (r: String)
        ensures
            r@ == graph_error_message(*self),
    {
        match *self {
            GraphParamError::NZero => String::from_str("'n' must be at least 1"),
            GraphParamError::MZero => String::from_str("'m' must be at least 1"),
            GraphParamError::MNotBelowN { m, n } => {
                let mut s = String::from_str("'m' must be less than 'n', got m=");
                push_decimal(&mut s, m as u128);
                s.append(", n=");
                push_decimal(&mut s, n as u128);
                s
            },
            GraphParamError::KZero => String::from_str("'k' must be at least 1"),
            GraphParamError::KOdd { k } => {
                let mut s = String::from_str("'k' must be even, got ");
                push_decimal(&mut s, k as u128);
                s
            },
            GraphParamError::KNotBelowN { k, n } => {
                let mut s = String::from_str("'k' must be less than 'n', got k=");
                push_decimal(&mut s, k as u128);
                s.append(", n=");
                push_decimal(&mut s, n as u128);
                s
            },
            GraphParamError::WeightRangeReversed { min, max } => {
                let mut s = String::from_str("'weight_range' min (");
                push_signed_decimal(&mut s, min);
                s.append(") must be <= max (");
                push_signed_decimal(&mut s, max);
                s.append(")");
                s
            },
            GraphParamError::WeightRangeZero => String::from_str(
                "'weight_range' (0, 0) contains no nonzero weight",
            ),
            GraphParamError::WeightRangeTooWide { min, max } => {
                let mut s = String::from_str("'weight_range' (");
                push_signed_decimal(&mut s, min);
                s.append(", ");
                push_signed_decimal(&mut s, max);
                s.append(") exceeds the exactly f32-representable range of +/-");
                push_decimal(&mut s, MAX_EXACT_F32_INT as u128);
                s
            },
        }
    }
}

/// The integer checks of the Erdős-Rényi generator `G(n, p)`: `n` must be at
/// least 1. (The check that `p` lies in `[0, 1]` follows this one.)
pub fn check_erdos_renyi(n: usize) -> (r: Result<(), GraphParamError>)
    ensures
        r == erdos_renyi_check(n),
{
    if n == 0 {
        return Err(GraphParamError::NZero);
    }
    Ok(())
}

/// The checks of the Barabási-Albert generator: `1 <= m < n`.
pub fn check_barabasi_albert(n: usize, m: usize) -> (r: Result<(), GraphParamError>)
    ensures
        r == barabasi_albert_check(n, m),
{
    if m == 0 {
        return Err(GraphParamError::MZero);
    }
    if m >= n {
        return Err(GraphParamError::MNotBelowN { m, n });
    }
    Ok(())
}

/// The integer checks of the Watts-Strogatz generator: `k` a positive even
/// number below `n`. (The check that `beta` lies in `[0, 1]` follows.)
pub fn check_watts_strogatz(n: usize, k: usize) -> (r: Result<(), GraphParamError>)
    ensures
        r == watts_strogatz_check(n, k),
{
    if k == 0 {
        return Err(GraphParamError::KZero);
    }
    if k % 2 != 0 {
        return Err(GraphParamError::KOdd { k });
    }
    if k >= n {
        return Err(GraphParamError::KNotBelowN { k, n });
    }
    Ok(())
}

/// `|x|` without overflow (`i64::MIN` included).
fn unsigned_abs(x: i64) -> (r: u64)
    ensures
        r == magnitude(x as int),
{
    if x < 0 {
        (0i128 - (x as i128)) as u64
    } else {
        x as u64
    }
}

/// The checks of `with_random_weights((min, max))`: an ordered range, not
/// `(0, 0)`, with both bounds within `±2^24`.
pub fn check_weight_range(min: i64, max: i64) -> (r: Result<(), GraphParamError>)
    ensures
        r == weight_range_check(min, max),
{
    if min > max {
        return Err(GraphParamError::WeightRangeReversed { min, max });
    }
    if min == 0 && max == 0 {
        return Err(GraphParamError::WeightRangeZero);
    }
    if unsigned_abs(min) > MAX_EXACT_F32_INT || unsigned_abs(max) > MAX_EXACT_F32_INT {
        return Err(GraphParamError::WeightRangeTooWide { min, max });
    }
    Ok(())
}

} // verus!
