//! Time conversions, byte decoding, and the simple-interest formula.

use vstd::prelude::*;

use crate::errors::StakingError;
use crate::ONE_DAY_IN_SECS;
use crate::TERM_APR_DEMONINATOR;
use vstd::arithmetic::div_mod::lemma_div_is_ordered;
use vstd::arithmetic::mul::lemma_mul_inequality;

verus! {

/// Converts a whole number of seconds to host nanoseconds.
pub fn to_nano(sec: u32) -> (r: u64)
    ensures
        r == sec * 1_000_000_000u64,
{
    (sec as u64) * 1_000_000_000
}

/// Converts a host nanosecond timestamp to whole seconds, rounding down.
pub fn nano_to_sec(nano: u64) -> (r: u64)
    ensures
        r == nano / 1_000_000_000u64,
{
    nano / 1_000_000_000
}

/// Simple, non-compounding interest of `principal` over the elapsed interval,
/// at an annual rate of `apr_bps` parts per 10000, floor-divided first by the
/// rate denominator and then by the seconds in a year — the division order
/// fixes the rounding and must not change.
pub open spec fn spec_elapsed_interest(
    principal: u128,
    from_sec: u64,
    to_sec: u64,
    apr_bps: u32,
) -> int
    recommends
        from_sec <= to_sec,
{
    principal as int * (to_sec - from_sec) * (apr_bps as int) / (TERM_APR_DEMONINATOR as int) / (
    (365 * ONE_DAY_IN_SECS) as int)
}

/// Whether the interest numerator stays within 128 bits, at both of the two
/// multiplication steps the computation takes.
pub open spec fn interest_mul_fits(
    principal: u128,
    from_sec: u64,
    to_sec: u64,
    apr_bps: u32,
) -> bool
    recommends
        from_sec <= to_sec,
{
    &&& principal as int * (to_sec - from_sec) <= u128::MAX as int
    &&& principal as int * (to_sec - from_sec) * (apr_bps as int) <= u128::MAX as int
}

/// Computes [`spec_elapsed_interest`]. The subtraction and each
/// multiplication are checked: time running backwards and widths exceeded
/// are reported, never wrapped.
pub fn elapsed_interest(principal: u128, from_sec: u64, to_sec: u64, apr_bps: u32) -> (r: Result<
    u128,
    StakingError,
>)
    ensures
        to_sec < from_sec ==> r == Err::<u128, StakingError>(StakingError::TimeUnderflow),
        from_sec <= to_sec && !interest_mul_fits(principal, from_sec, to_sec, apr_bps) ==> r
            == Err::<u128, StakingError>(StakingError::Overflow),
        from_sec <= to_sec && interest_mul_fits(principal, from_sec, to_sec, apr_bps) ==> r
            == Ok::<u128, StakingError>(
            spec_elapsed_interest(principal, from_sec, to_sec, apr_bps) as u128,
        ),
{
    if to_sec < from_sec {
        return Err(StakingError::TimeUnderflow);
    }
    let delta: u64 = to_sec - from_sec;
    let p1: u128 = match principal.checked_mul(delta as u128) {
        Some(v) => v,
        None => {
            return Err(StakingError::Overflow);
        },
    };
    let p2: u128 = match p1.checked_mul(apr_bps as u128) {
        Some(v) => v,
        None => {
            proof {
                lemma_mul_inequality(
                    principal as int * (delta as int),
                    u128::MAX as int + 1,
                    apr_bps as int,
                );
            }
            return Err(StakingError::Overflow);
        },
    };
    Ok(p2 / (TERM_APR_DEMONINATOR as u128) / ((365 * ONE_DAY_IN_SECS) as u128))
}

/// Interest monotonicity: with the deposit untouched, interest evaluated at
/// a later time is at least the interest evaluated at an earlier one.
pub proof fn lemma_elapsed_interest_monotonic(
    principal: u128,
    from_sec: u64,
    t1: u64,
    t2: u64,
    apr_bps: u32,
)
    requires
        from_sec <= t1 <= t2,
    ensures
        spec_elapsed_interest(principal, from_sec, t1, apr_bps) <= spec_elapsed_interest(
            principal,
            from_sec,
            t2,
            apr_bps,
        ),
{
    let p = principal as int;
    let a = apr_bps as int;
    let d1 = t1 - from_sec;
    let d2 = t2 - from_sec;
    lemma_mul_inequality(d1, d2, p);
    assert(p * d1 <= p * d2) by {
        assert(d1 * p == p * d1);
        assert(d2 * p == p * d2);
    }
    lemma_mul_inequality(p * d1, p * d2, a);
    lemma_div_is_ordered(p * d1 * a, p * d2 * a, TERM_APR_DEMONINATOR as int);
    lemma_div_is_ordered(
        p * d1 * a / (TERM_APR_DEMONINATOR as int),
        p * d2 * a / (TERM_APR_DEMONINATOR as int),
        (365 * ONE_DAY_IN_SECS) as int,
    );
}

/// The value of the first 16 bytes read as one little-endian 128-bit number.
pub open spec fn u128_from_le_bytes(s: Seq<u8>) -> int
    recommends
        s.len() >= 16,
{
    s[0] + s[1] * 0x100 + s[2] * 0x1_0000 + s[3] * 0x100_0000 + s[4] * 0x1_0000_0000 + s[5]
        * 0x100_0000_0000 + s[6] * 0x1_0000_0000_0000 + s[7] * 0x100_0000_0000_0000 + s[8]
        * 0x1_0000_0000_0000_0000 + s[9] * 0x100_0000_0000_0000_0000 + s[10]
        * 0x1_0000_0000_0000_0000_0000 + s[11] * 0x100_0000_0000_0000_0000_0000 + s[12]
        * 0x1_0000_0000_0000_0000_0000_0000 + s[13] * 0x100_0000_0000_0000_0000_0000_0000 + s[14]
        * 0x1_0000_0000_0000_0000_0000_0000_0000 + s[15] * 0x100_0000_0000_0000_0000_0000_0000_0000
}

/// Recombines the first 16 bytes of `arr` into the little-endian 128-bit
/// number they encode.
pub fn as_u128(arr: &[u8]) -> (r: u128)
    requires
        arr@.len() >= 16,
    ensures
        r == u128_from_le_bytes(arr@),
{
    let b0 = arr[0];
    let b1 = arr[1];
    let b2 = arr[2];
    let b3 = arr[3];
    let b4 = arr[4];
    let b5 = arr[5];
    let b6 = arr[6];
    let b7 = arr[7];
    let b8 = arr[8];
    let b9 = arr[9];
    let b10 = arr[10];
    let b11 = arr[11];
    let b12 = arr[12];
    let b13 = arr[13];
    let b14 = arr[14];
    let b15 = arr[15];
    proof {
        assert((b1 as u128) << 8 == b1 * 0x100) by (bit_vector);
        assert((b2 as u128) << 16 == b2 * 0x1_0000) by (bit_vector);
        assert((b3 as u128) << 24 == b3 * 0x100_0000) by (bit_vector);
        assert((b4 as u128) << 32 == b4 * 0x1_0000_0000) by (bit_vector);
        assert((b5 as u128) << 40 == b5 * 0x100_0000_0000) by (bit_vector);
        assert((b6 as u128) << 48 == b6 * 0x1_0000_0000_0000) by (bit_vector);
        assert((b7 as u128) << 56 == b7 * 0x100_0000_0000_0000) by (bit_vector);
        assert((b8 as u128) << 64 == b8 * 0x1_0000_0000_0000_0000) by (bit_vector);
        assert((b9 as u128) << 72 == b9 * 0x100_0000_0000_0000_0000) by (bit_vector);
        assert((b10 as u128) << 80 == b10 * 0x1_0000_0000_0000_0000_0000) by (bit_vector);
        assert((b11 as u128) << 88 == b11 * 0x100_0000_0000_0000_0000_0000) by (bit_vector);
        assert((b12 as u128) << 96 == b12 * 0x1_0000_0000_0000_0000_0000_0000) by (bit_vector);
        assert((b13 as u128) << 104 == b13 * 0x100_0000_0000_0000_0000_0000_0000) by (bit_vector);
        assert((b14 as u128) << 112 == b14 * 0x1_0000_0000_0000_0000_0000_0000_0000) by (
        bit_vector);
        assert((b15 as u128) << 120 == b15 * 0x100_0000_0000_0000_0000_0000_0000_0000) by (
        bit_vector);
    }
    (b0 as u128) + ((b1 as u128) << 8) + ((b2 as u128) << 16) + ((b3 as u128) << 24) + ((b4
        as u128) << 32) + ((b5 as u128) << 40) + ((b6 as u128) << 48) + ((b7 as u128) << 56) + ((b8
        as u128) << 64) + ((b9 as u128) << 72) + ((b10 as u128) << 80) + ((b11 as u128) << 88) + ((
    b12 as u128) << 96) + ((b13 as u128) << 104) + ((b14 as u128) << 112) + ((b15 as u128) << 120)
}

} // verus!
