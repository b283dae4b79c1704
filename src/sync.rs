//! Turning a network time server's answer into an instant.
use vstd::prelude::*;
use crate::civil::ZonedTimestamp;
use crate::error::TimeError;
use crate::clock::TimeOfDay;
use vstd::arithmetic::div_mod::*;

verus! {

/// One answer of a time server: Unix seconds, the fraction of a second in
/// units of 2^-32 s, and the measured offset of the local clock.
#[derive(Clone, Copy, Debug, PartialEq, Eq, Structural)]
pub struct NtpSample {
    pub seconds: u64,
    pub second_fraction: u32,
    pub offset: i64,
}

/// Nanoseconds in `fraction` units of 2^-32 s, rounded down.
pub open spec fn fraction_nanos(fraction: u32) -> int {
    (fraction as int * 1_000_000_000) / 0x1_0000_0000
}

/// Relies on sntpc::fraction_to_nanoseconds, which computes
/// `fraction * 10^9 / 2^32` in 64-bit integers.
#[verifier::external_body]
fn fraction_to_nanoseconds(fraction: u32) -> (r: u32)
    ensures
        r as int == fraction_nanos(fraction),
{
    sntpc::fraction_to_nanoseconds(fraction)
}

/// The instant of a time server's answer, read in UTC.
pub open spec fn ntp_instant(sample: NtpSample) -> ZonedTimestamp {
    ZonedTimestamp {
        seconds: sample.seconds as i64,
        nanos: fraction_nanos(sample.second_fraction) as u32,
        offset_seconds: 0,
    }
}

/// What the network sync does with the outcome of its request: no answer is
/// `NetworkTimeUnavailable`, and so is an answer whose seconds do not fit the
/// clock; otherwise the answer's instant, in UTC.
pub fn timestamp_from_ntp(reply: Option<NtpSample>) -> (r: Result<ZonedTimestamp, TimeError>)
    ensures
        match reply {
            None => r == Err::<ZonedTimestamp, TimeError>(TimeError::NetworkTimeUnavailable),
            Some(sample) => if sample.seconds <= i64::MAX {
                r == Ok::<ZonedTimestamp, TimeError>(ntp_instant(sample))
            } else {
                r == Err::<ZonedTimestamp, TimeError>(TimeError::NetworkTimeUnavailable)
            },
        },
        r matches Ok(t) ==> t.wf(),
{
    match reply {
        None => Err(TimeError::NetworkTimeUnavailable),
        Some(sample) => {
            if sample.seconds > i64::MAX as u64 {
                return Err(TimeError::NetworkTimeUnavailable);
            }
            let nanos = fraction_to_nanoseconds(sample.second_fraction);
            proof {
                assert(fraction_nanos(sample.second_fraction) < 1_000_000_000) by (nonlinear_arith)
                    requires
                        (sample.second_fraction as int) < 0x1_0000_0000,
                        fraction_nanos(sample.second_fraction) == (sample.second_fraction as int
                            * 1_000_000_000) / 0x1_0000_0000,
                ;
            }
            Ok(ZonedTimestamp { seconds: sample.seconds as i64, nanos, offset_seconds: 0 })
        },
    }
}


pub open spec fn pow10(k: nat) -> nat
    decreases k,
{
    if k == 0 { 1 } else { 10 * pow10((k - 1) as nat) }
}

/// The first `k` decimal digits of `n` (all of them if it has no more).
pub open spec fn leading_digits(n: nat, k: nat) -> nat
    decreases n,
{
    if n < pow10(k) || n < 10 { n } else { leading_digits(n / 10, k) }
}

/// The number written by the first ten characters of `x` in decimal, its
/// sign included: a timestamp in finer units than seconds is cut back to
/// seconds, one already in seconds is kept.
pub open spec fn unix_seconds_of(x: int) -> int {
    if x >= 0 {
        leading_digits(x as nat, 10) as int
    } else {
        -(leading_digits((-x) as nat, 9) as int)
    }
}

/// Keeps the first ten characters of `unix_time` in decimal, its sign
/// included, as the epoch seconds.
pub fn convert_from_unix(unix_time: i64) -> (r: i64)
    ensures
        r == unix_seconds_of(unix_time as int),
        -1_000_000_000 < r < 10_000_000_000,
{
    let neg = unix_time < 0;
    let mut n: u64 = if neg { (0i128 - unix_time as i128) as u64 } else { unix_time as u64 };
    let ghost k: nat = if neg { 9nat } else { 10nat };
    let limit: u64 = if neg { 1_000_000_000 } else { 10_000_000_000 };
    let ghost n0 = n;
    proof {
        reveal_with_fuel(pow10, 11);
        assert(limit == pow10(k));
    }
    while n >= limit
        invariant
            limit == pow10(k),
            limit >= 10,
            leading_digits(n as nat, k) == leading_digits(n0 as nat, k),
            n <= n0,
        decreases n,
    {
        n = n / 10;
    }
    if neg {
        -(n as i64)
    } else {
        n as i64
    }
}

/// The hour and minute of an epoch second on the UTC clock.
pub fn utc_clock_time(epoch: i64) -> (r: TimeOfDay)
    requires
        -1_000_000_000_000 < epoch < 1_000_000_000_000,
    ensures
        r.wf(),
        r.hour * 3600 + r.minute * 60 <= epoch % 86400 < r.hour * 3600 + r.minute * 60 + 60,
{
    // Shifted by a whole number of days, so that the remainder is taken of a
    // non-negative number.
    let shifted: u64 = (epoch + 86400 * 20_000_000) as u64;
    let sod: u64 = shifted % 86400;
    proof {
        lemma_fundamental_div_mod(epoch as int, 86400);
        lemma_fundamental_div_mod_converse(
            epoch as int + 86400 * 20_000_000,
            86400,
            epoch as int / 86400 + 20_000_000,
            epoch as int % 86400,
        );
        lemma_fundamental_div_mod(sod as int, 3600);
        lemma_fundamental_div_mod((sod % 3600) as int, 60);
    }
    TimeOfDay { hour: (sod / 3600) as u8, minute: ((sod % 3600) / 60) as u8 }
}

} // verus!
