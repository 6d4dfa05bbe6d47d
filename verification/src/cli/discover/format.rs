//! How sizes, durations and points in time are written.

use vstd::prelude::*;
use vstd::string::*;
use crate::metrics::opt_text;
use crate::text::{decimal, decimal_digits, digit_char, join_text};
use crate::timestamp::Timestamp;

verus! {

/// `n / d` rounded to the nearest whole number, a tie going to the even
/// one.
pub open spec fn round_half_even(n: nat, d: nat) -> nat
    recommends
        d > 0,
{
    let q = n / d;
    let r = n % d;
    if 2 * r > d || (2 * r == d && q % 2 == 1) {
        q + 1
    } else {
        q
    }
}

/// The step between the numbers that 53 binary digits can hold, at the size
/// of `n`.
pub open spec fn precision_step(n: nat) -> nat
    decreases n,
{
    if n < 0x20_0000_0000_0000 {
        1
    } else {
        2 * precision_step(n / 2)
    }
}

/// `n` as a number of 53 binary digits holds it: rounded to the nearest
/// multiple of the step at its size, a tie going to the even one. Numbers
/// below 2 to the 53rd are held as they are.
pub open spec fn held_in_53_bits(n: nat) -> nat {
    round_half_even(n, precision_step(n)) * precision_step(n)
}

/// A number of tenths written with one decimal place.
pub open spec fn one_decimal(tenths: nat) -> Seq<char> {
    decimal_digits(tenths / 10) + seq!['.', digit_char(tenths % 10)]
}

/// A size in bytes as text: in the largest of the units B, KB, MB, GB and TB
/// (each 1024 of the one before) that it reaches; whole kilobytes, and one
/// decimal place from megabytes on. The size is taken as a number of 53
/// binary digits holds it and rounded to the place shown, a tie going to
/// the even digit.
pub open spec fn size_text(bytes: u64) -> Seq<char> {
    let held = held_in_53_bits(bytes as nat);
    if bytes >= 0x100_0000_0000 {
        one_decimal(round_half_even(held * 10, 0x100_0000_0000)) + " TB"@
    } else if bytes >= 0x4000_0000 {
        one_decimal(round_half_even(held * 10, 0x4000_0000)) + " GB"@
    } else if bytes >= 0x10_0000 {
        one_decimal(round_half_even(held * 10, 0x10_0000)) + " MB"@
    } else if bytes >= 0x400 {
        decimal_digits(round_half_even(held, 0x400)) + " KB"@
    } else {
        decimal_digits(bytes as nat) + " B"@
    }
}

/// `n / d` rounded to the nearest whole number, a tie going to the even
/// one.
fn rounded_quotient(n: u128, d: u128) -> (q: u128)
    requires
        d > 0,
        n / d < u128::MAX,
        d <= u128::MAX / 2,
    ensures
        q == round_half_even(n as nat, d as nat),
{
    let q = n / d;
    let r = n % d;
    if 2 * r > d || (2 * r == d && q % 2 == 1) {
        q + 1
    } else {
        q
    }
}

/// Halving a number and doubling the step keeps their product below the
/// number it started from.
proof fn lemma_halve_and_double(m: nat, step: nat, n: nat)
    requires
        m * step <= n,
    ensures
        (m / 2) * (step * 2) <= n,
        m >= 0x20_0000_0000_0000 ==> (step * 2) * 0x10_0000_0000_0000 <= n,
{
    assert((m / 2) * (step * 2) <= m * step) by (nonlinear_arith)
        requires
            (m / 2) * 2 <= m,
    ;
    if m >= 0x20_0000_0000_0000 {
        assert((step * 2) * 0x10_0000_0000_0000 <= m * step) by (nonlinear_arith)
            requires
                m >= 0x20_0000_0000_0000,
        ;
    }
}

/// A rounded quotient, multiplied back, is off by the divisor at most.
proof fn lemma_rounded_back(n: nat, d: nat)
    requires
        d > 0,
    ensures
        round_half_even(n, d) * d <= n + d,
{
    let q = n / d;
    assert(q * d <= n) by (nonlinear_arith)
        requires
            q == n / d,
            d > 0,
    ;
    assert((q + 1) * d == q * d + d) by (nonlinear_arith);
}

/// `n` as a number of 53 binary digits holds it.
pub fn to_53_bits(n: u64) -> (held: u128)
    ensures
        held == held_in_53_bits(n as nat),
        held <= 0x1_0000_0000_0000_1000,
        n < 0x20_0000_0000_0000 ==> held == n,
{
    let mut step: u128 = 1;
    let mut m: u64 = n;
    while m >= 0x20_0000_0000_0000
        invariant
            precision_step(n as nat) == step * precision_step(m as nat),
            step >= 1,
            m as nat * step as nat <= n,
            step == 1 || (step as nat) * 0x10_0000_0000_0000 <= n,
            n < 0x20_0000_0000_0000 ==> step == 1 && m == n,
        decreases m,
    {
        proof {
            lemma_halve_and_double(m as nat, step as nat, n as nat);
            assert(precision_step(m as nat) == 2 * precision_step((m / 2) as nat));
            assert(step * (2 * precision_step((m / 2) as nat)) == (step * 2) * precision_step(
                (m / 2) as nat,
            )) by (nonlinear_arith);
        }
        m = m / 2;
        step = step * 2;
    }
    assert(precision_step(m as nat) == 1);
    assert(step <= 0x1000);
    let q = rounded_quotient(n as u128, step);
    proof {
        lemma_rounded_back(n as nat, step as nat);
        assert(precision_step(n as nat) == step) by (nonlinear_arith)
            requires
                precision_step(n as nat) == step * 1,
        ;
    }
    q * step
}

/// A number of tenths written with one decimal place.
pub fn write_one_decimal(tenths: u128) -> (s: String)
    ensures
        s@ == one_decimal(tenths as nat),
{
    let mut s = decimal(tenths / 10);
    s.push('.');
    let d: u8 = (tenths % 10) as u8;
    s.push((48u8 + d) as char);
    assert(s@ =~= one_decimal(tenths as nat));
    s
}

/// Writes a size in bytes for people to read.
pub fn format_size(bytes: u64) -> (s: String)
    ensures
        s@ == size_text(bytes),
{
    let held = to_53_bits(bytes);
    if bytes >= 0x100_0000_0000 {
        let number = write_one_decimal(rounded_quotient(held * 10, 0x100_0000_0000));
        join_text(number.as_str(), " TB")
    } else if bytes >= 0x4000_0000 {
        let number = write_one_decimal(rounded_quotient(held * 10, 0x4000_0000));
        join_text(number.as_str(), " GB")
    } else if bytes >= 0x10_0000 {
        let number = write_one_decimal(rounded_quotient(held * 10, 0x10_0000));
        join_text(number.as_str(), " MB")
    } else if bytes >= 0x400 {
        let number = decimal(rounded_quotient(held, 0x400));
        join_text(number.as_str(), " KB")
    } else {
        let number = decimal(bytes as u128);
        join_text(number.as_str(), " B")
    }
}

/// Writes a duration, given in whole milliseconds.
pub fn format_duration_ms(millis: u128) -> (s: String)
    ensures
        s@ == decimal_digits(millis as nat) + "ms"@,
{
    let number = decimal(millis);
    join_text(number.as_str(), "ms")
}

/// The RFC 3339 text, in UTC, of the point in time that lies `secs` seconds
/// and `nanos` nanoseconds after the Unix epoch, as the `chrono` crate
/// writes it; nothing where its calendar does not reach the point.
pub uninterp spec fn rfc3339_utc(secs: i64, nanos: u32) -> Option<Seq<char>>;

/// `DateTime::to_rfc3339` of the `chrono` crate, on the UTC date and time
/// that `DateTime::from_timestamp` makes of the seconds and nanoseconds. The
/// text depends on the two numbers alone. Where `from_timestamp` gives
/// nothing, for a point outside the calendar or for nanoseconds that are no
/// part of a second, there is no text.
#[verifier::external_body]
fn rfc3339_of(secs: i64, nanos: u32) -> (r: Option<String>)
    ensures
        opt_text(r) == rfc3339_utc(secs, nanos),
{
    match chrono::DateTime::<chrono::Utc>::from_timestamp(secs, nanos) {
        Some(time) => Some(time.to_rfc3339()),
        None => None,
    }
}

/// Whether a point in time can be written as RFC 3339 text.
pub open spec fn has_iso_text(time: Timestamp) -> bool {
    time.secs_since_epoch <= i64::MAX && rfc3339_utc(
        time.secs_since_epoch as i64,
        time.nanos_since_epoch,
    ) is Some
}

/// Writes a point in time as RFC 3339 text in UTC, for JSON output.
pub fn format_timestamp_iso(time: Timestamp) -> (s: String)
    requires
        has_iso_text(time),
    ensures
        Some(s@) == rfc3339_utc(time.secs_since_epoch as i64, time.nanos_since_epoch),
{
    match rfc3339_of(time.secs_since_epoch as i64, time.nanos_since_epoch) {
        Some(s) => s,
        None => String::new(),
    }
}

/// Writes a point in time as RFC 3339 text in UTC, where it can be written
/// so.
pub fn try_format_timestamp_iso(time: Timestamp) -> (r: Option<String>)
    ensures
        r is Some == has_iso_text(time),
        r is Some ==> Some(r->0@) == rfc3339_utc(
            time.secs_since_epoch as i64,
            time.nanos_since_epoch,
        ),
{
    if time.secs_since_epoch > 0x7fff_ffff_ffff_ffff {
        return None;
    }
    match rfc3339_of(time.secs_since_epoch as i64, time.nanos_since_epoch) {
        Some(_) => Some(format_timestamp_iso(time)),
        None => None,
    }
}

} // verus!
