//! Timing utilities for measuring and reporting execution durations.

use vstd::prelude::*;

verus! {

/// Result of a timed operation.
pub struct TimedResult<T> {
    pub value: T,
    /// Elapsed wall time, in nanoseconds.
    pub duration_nanos: u128,
}

#[verifier::external_type_specification]
#[verifier::external_body]
pub struct ExInstant(std::time::Instant);

/// Relies on std::time::Instant::now: an opaque monotonic clock reading.
/// Nothing is promised of the value.
#[verifier::external_body]
fn instant_now() -> std::time::Instant {
    std::time::Instant::now()
}

/// Relies on Instant::elapsed (the time since the reading was taken),
/// converted to nanoseconds with Duration::as_nanos. Nothing is promised
/// of the value: it depends on the clock.
#[verifier::external_body]
fn elapsed_nanos(start: &std::time::Instant) -> u128 {
    start.elapsed().as_nanos()
}

/// Relies on String::push: appends the character at the end of the string.
#[verifier::external_body]
fn push_char(s: &mut String, c: char)
    ensures
        final(s)@ == old(s)@.push(c),
{
    s.push(c);
}

/// Execute a function and measure its duration.
pub fn timed<T, F: FnOnce() -> T>(f: F) -> (r: TimedResult<T>)
    requires
        call_requires(f, ()),
    ensures
        call_ensures(f, (), r.value),
{
    let start = instant_now();
    let value = f();
    let duration_nanos = elapsed_nanos(&start);
    TimedResult { value, duration_nanos }
}

/// The decimal digit character for `d`.
pub open spec fn digit_char(d: int) -> char {
    if d == 0 {
        '0'
    } else if d == 1 {
        '1'
    } else if d == 2 {
        '2'
    } else if d == 3 {
        '3'
    } else if d == 4 {
        '4'
    } else if d == 5 {
        '5'
    } else if d == 6 {
        '6'
    } else if d == 7 {
        '7'
    } else if d == 8 {
        '8'
    } else {
        '9'
    }
}

/// The decimal digit string of `n`, most significant digit first.
pub open spec fn dec_spec(n: nat) -> Seq<char>
    decreases n,
{
    if n < 10 {
        seq![digit_char(n as int)]
    } else {
        dec_spec(n / 10).push(digit_char((n % 10) as int))
    }
}

/// A count of hundredths rendered as "<whole>.<two digits>".
pub open spec fn scaled_spec(h: nat) -> Seq<char> {
    dec_spec(h / 100) + seq!['.', digit_char(((h / 10) % 10) as int), digit_char((h % 10) as int)]
}

/// The count of hundredths of `unit` in `n` nanoseconds, where `unit`
/// is given in nanoseconds; rounded to nearest, ties away from zero.
pub open spec fn hundredths_spec(n: nat, unit: nat) -> nat
    recommends
        unit >= 1_000,
        unit % 100 == 0,
{
    let tick = unit / 100;
    n / tick + (if n % tick >= tick / 2 { 1nat } else { 0nat })
}

/// The human-readable rendering of a duration of `n` nanoseconds:
/// whole nanoseconds below 1us, else two-decimal microseconds,
/// milliseconds, or seconds.
pub open spec fn format_duration_spec(n: nat) -> Seq<char> {
    if n < 1_000 {
        dec_spec(n) + seq!['n', 's']
    } else if n < 1_000_000 {
        scaled_spec(hundredths_spec(n, 1_000)) + seq!['u', 's']
    } else if n < 1_000_000_000 {
        scaled_spec(hundredths_spec(n, 1_000_000)) + seq!['m', 's']
    } else {
        scaled_spec(hundredths_spec(n, 1_000_000_000)) + seq!['s']
    }
}

/// The decimal digit character for `d`, as executable code.
fn digit_to_char(d: u128) -> (c: char)
    requires
        d < 10,
    ensures
        c == digit_char(d as int),
{
    if d == 0 {
        '0'
    } else if d == 1 {
        '1'
    } else if d == 2 {
        '2'
    } else if d == 3 {
        '3'
    } else if d == 4 {
        '4'
    } else if d == 5 {
        '5'
    } else if d == 6 {
        '6'
    } else if d == 7 {
        '7'
    } else if d == 8 {
        '8'
    } else {
        '9'
    }
}

/// Appends the decimal digits of `n` to `s`.
fn push_decimal(s: &mut String, n: u128)
    ensures
        final(s)@ == old(s)@ + dec_spec(n as nat),
    decreases n,
{
    if n >= 10 {
        push_decimal(s, n / 10);
    }
    let c = digit_to_char(n % 10);
    push_char(s, c);
    proof {
        assert(s@ =~= old(s)@ + dec_spec(n as nat));
    }
}

/// Appends a count of hundredths as "<whole>.<two digits>".
fn push_scaled(s: &mut String, h: u128)
    ensures
        final(s)@ == old(s)@ + scaled_spec(h as nat),
{
    push_decimal(s, h / 100);
    push_char(s, '.');
    let d1 = digit_to_char((h / 10) % 10);
    push_char(s, d1);
    let d2 = digit_to_char(h % 10);
    push_char(s, d2);
    proof {
        assert(s@ =~= old(s)@ + scaled_spec(h as nat));
    }
}

/// Computes the rounded count of hundredths of `unit` in `nanos`.
fn hundredths(nanos: u128, unit: u128) -> (h: u128)
    requires
        unit >= 1_000,
        unit % 100 == 0,
    ensures
        h == hundredths_spec(nanos as nat, unit as nat),
{
    let tick = unit / 100;
    let q = nanos / tick;
    if nanos % tick >= tick / 2 {
        assert(q < u128::MAX) by {
            vstd::arithmetic::div_mod::lemma_div_is_ordered_by_denominator(
                nanos as int,
                10,
                tick as int,
            );
            vstd::arithmetic::div_mod::lemma_div_is_ordered(nanos as int, u128::MAX as int, 10);
        }
        q + 1
    } else {
        q
    }
}

/// Format a duration, given in nanoseconds, in a human-readable way.
pub fn format_duration(nanos: u128) -> (r: String)
    ensures
        r@ == format_duration_spec(nanos as nat),
{
    let mut s = String::new();
    if nanos < 1_000 {
        push_decimal(&mut s, nanos);
        push_char(&mut s, 'n');
        push_char(&mut s, 's');
    } else if nanos < 1_000_000 {
        let h = hundredths(nanos, 1_000);
        push_scaled(&mut s, h);
        push_char(&mut s, 'u');
        push_char(&mut s, 's');
    } else if nanos < 1_000_000_000 {
        let h = hundredths(nanos, 1_000_000);
        push_scaled(&mut s, h);
        push_char(&mut s, 'm');
        push_char(&mut s, 's');
    } else {
        let h = hundredths(nanos, 1_000_000_000);
        push_scaled(&mut s, h);
        push_char(&mut s, 's');
    }
    proof {
        assert(s@ =~= format_duration_spec(nanos as nat));
    }
    s
}

} // verus!
