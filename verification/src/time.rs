//! A span of time with nanosecond resolution, used for timeouts and retry
//! delays.

use vstd::prelude::*;
use crate::text::{dec_digits, digit, digit_char, pow10, push_char, push_decimal};

verus! {

/// Nanoseconds in one second.
pub const NANOS_PER_SEC: u128 = 1_000_000_000;

/// Nanoseconds in one millisecond.
pub const NANOS_PER_MILLI: u128 = 1_000_000;

/// Nanoseconds in one microsecond.
pub const NANOS_PER_MICRO: u128 = 1_000;

/// The largest span a `Duration` holds: `u64::MAX` seconds and 999,999,999
/// nanoseconds.
pub open spec fn max_nanos() -> nat {
    u64::MAX as nat * 1_000_000_000 + 999_999_999
}

/// A span of time, counted in nanoseconds.
#[derive(Clone, Copy, Debug, PartialEq, Eq, Structural)]
pub struct Duration {
    nanos: u128,
}

impl View for Duration {
    type V = nat;

    /// The span in nanoseconds.
    closed spec fn view(&self) -> nat {
        self.nanos as nat
    }
}

impl Duration {
    #[verifier::type_invariant]
    spec fn in_range(self) -> bool {
        self.nanos <= max_nanos()
    }

    /// The empty span.
    pub fn zero() -> (d: Duration)
        ensures
            d@ == 0,
    {
        Duration { nanos: 0 }
    }

    /// A span of `secs` seconds.
    pub fn from_secs(secs: u64) -> (d: Duration)
        ensures
            d@ == secs as nat * 1_000_000_000,
    {
        Duration { nanos: secs as u128 * NANOS_PER_SEC }
    }

    /// A span of `millis` milliseconds.
    pub fn from_millis(millis: u64) -> (d: Duration)
        ensures
            d@ == millis as nat * 1_000_000,
    {
        Duration { nanos: millis as u128 * NANOS_PER_MILLI }
    }

    /// A span of `micros` microseconds.
    pub fn from_micros(micros: u64) -> (d: Duration)
        ensures
            d@ == micros as nat * 1_000,
    {
        Duration { nanos: micros as u128 * NANOS_PER_MICRO }
    }

    /// A span of `nanos` nanoseconds.
    pub fn from_nanos(nanos: u64) -> (d: Duration)
        ensures
            d@ == nanos as nat,
    {
        Duration { nanos: nanos as u128 }
    }

    /// A span of `secs` seconds and `subsec_nanos` nanoseconds; whole
    /// seconds among the nanoseconds are carried into the seconds, which must
    /// then still fit in a `u64`.
    pub fn new(secs: u64, subsec_nanos: u32) -> (d: Duration)
        requires
            secs as nat * 1_000_000_000 + subsec_nanos as nat <= max_nanos(),
        ensures
            d@ == secs as nat * 1_000_000_000 + subsec_nanos as nat,
    {
        Duration { nanos: secs as u128 * NANOS_PER_SEC + subsec_nanos as u128 }
    }

    /// The span in nanoseconds.
    pub fn as_nanos(&self) -> (n: u128)
        ensures
            n as nat == self@,
    {
        self.nanos
    }

    /// Whole milliseconds in the span.
    pub fn as_millis(&self) -> (ms: u128)
        ensures
            ms as nat == self@ / 1_000_000,
    {
        self.nanos / NANOS_PER_MILLI
    }

    /// Whole seconds in the span.
    pub fn as_secs(&self) -> (s: u64)
        ensures
            s as nat == self@ / 1_000_000_000,
    {
        proof {
            use_type_invariant(self);
        }
        (self.nanos / NANOS_PER_SEC) as u64
    }

    /// The nanoseconds beyond the whole seconds.
    pub fn subsec_nanos(&self) -> (n: u32)
        ensures
            n as nat == self@ % 1_000_000_000,
    {
        (self.nanos % NANOS_PER_SEC) as u32
    }

    /// The whole milliseconds beyond the whole seconds.
    pub fn subsec_millis(&self) -> (ms: u32)
        ensures
            ms as nat == (self@ % 1_000_000_000) / 1_000_000,
    {
        ((self.nanos % NANOS_PER_SEC) / NANOS_PER_MILLI) as u32
    }

    /// Whether the span is empty.
    pub fn is_zero(&self) -> (z: bool)
        ensures
            z == (self@ == 0),
    {
        self.nanos == 0
    }

    /// `self - other`, or the empty span when `other` is longer.
    pub fn saturating_sub(&self, other: Duration) -> (d: Duration)
        ensures
            d@ == if self@ >= other@ { self@ - other@ } else { 0 },
    {
        if self.nanos >= other.nanos {
            proof {
                use_type_invariant(self);
            }
            Duration { nanos: self.nanos - other.nanos }
        } else {
            Duration::zero()
        }
    }

    /// Whether `self` is at most `other`.
    pub fn le(&self, other: &Duration) -> (b: bool)
        ensures
            b == (self@ <= other@),
    {
        self.nanos <= other.nanos
    }

    /// The shorter of the two spans (`self` when they are equal).
    pub fn min(self, other: Duration) -> (d: Duration)
        ensures
            d@ == if self@ <= other@ { self@ } else { other@ },
    {
        if self.nanos <= other.nanos {
            self
        } else {
            other
        }
    }

    /// The span as text in the style of the standard library's debug
    /// output: the largest unit among `s`, `ms`, `µs` and `ns` that gives a
    /// whole part of at least one (seconds whenever there is a whole second),
    /// followed by the fractional digits without trailing zeros.
    pub fn debug_text(&self) -> (t: String)
        ensures
            t@ == duration_debug(self@),
    {
        proof {
            use_type_invariant(self);
        }
        let mut t = String::new();
        let n = self.nanos;
        proof {
            reveal_strlit("s");
            reveal_strlit("ms");
            reveal_strlit("µs");
            reveal_strlit("ns");
            reveal_with_fuel(pow10, 10);
        }
        if n >= NANOS_PER_SEC {
            push_decimal(&mut t, n / NANOS_PER_SEC);
            push_fraction(&mut t, n % NANOS_PER_SEC, NANOS_PER_SEC / 10, Ghost(8));
            t.append("s");
        } else if n >= NANOS_PER_MILLI {
            push_decimal(&mut t, n / NANOS_PER_MILLI);
            push_fraction(&mut t, n % NANOS_PER_MILLI, NANOS_PER_MILLI / 10, Ghost(5));
            t.append("ms");
        } else if n >= NANOS_PER_MICRO {
            push_decimal(&mut t, n / NANOS_PER_MICRO);
            push_fraction(&mut t, n % NANOS_PER_MICRO, NANOS_PER_MICRO / 10, Ghost(2));
            t.append("µs");
        } else {
            push_decimal(&mut t, n);
            t.append("ns");
        }
        assert(t@ =~= duration_debug(self@));
        t
    }
}

/// The digits of `frac / (10 * unit)` written out, most significant first,
/// stopping as soon as the rest is zero.
pub open spec fn fraction_digits(frac: nat, unit: nat) -> Seq<char>
    decreases unit,
{
    if frac == 0 || unit == 0 {
        Seq::empty()
    } else {
        seq![digit_char((frac / unit) as int)] + fraction_digits(frac % unit, unit / 10)
    }
}

/// `"."` and the fractional digits, or nothing when the fraction is zero.
pub open spec fn fraction_text(frac: nat, unit: nat) -> Seq<char> {
    if frac == 0 {
        Seq::empty()
    } else {
        seq!['.'] + fraction_digits(frac, unit)
    }
}

/// The debug text of a span of `n` nanoseconds.
pub open spec fn duration_debug(n: nat) -> Seq<char> {
    if n >= 1_000_000_000 {
        dec_digits(n / 1_000_000_000) + fraction_text(n % 1_000_000_000, 100_000_000) + seq!['s']
    } else if n >= 1_000_000 {
        dec_digits(n / 1_000_000) + fraction_text(n % 1_000_000, 100_000) + seq!['m', 's']
    } else if n >= 1_000 {
        dec_digits(n / 1_000) + fraction_text(n % 1_000, 100) + seq!['µ', 's']
    } else {
        dec_digits(n) + seq!['n', 's']
    }
}

fn push_fraction(t: &mut String, frac: u128, unit: u128, Ghost(k): Ghost<nat>)
    requires
        frac < 10 * unit,
        unit == pow10(k),
    ensures
        final(t)@ == old(t)@ + fraction_text(frac as nat, unit as nat),
{
    if frac > 0 {
        push_char(t, '.');
        let mut f = frac;
        let mut u = unit;
        let ghost mut e = k;
        while f > 0 && u > 0
            invariant
                f < 10 * u || f == 0,
                f == 0 || u == pow10(e),
                t@ + fraction_digits(f as nat, u as nat) == old(t)@ + fraction_text(
                    frac as nat,
                    unit as nat,
                ),
            decreases u,
        {
            assert(f / u < 10) by (nonlinear_arith)
                requires
                    f < 10 * u,
                    u > 0,
            ;
            let d = (f / u) as u8;
            let ghost before = t@;
            push_char(t, digit(d));
            assert(before + fraction_digits(f as nat, u as nat) =~= t@ + fraction_digits(
                (f % u) as nat,
                (u / 10) as nat,
            ));
            proof {
                if e > 0 {
                    assert(u == 10 * pow10((e - 1) as nat));
                    assert(f % u < u);
                    e = (e - 1) as nat;
                } else {
                    assert(u == 1);
                    assert(f % u == 0);
                }
            }
            f = f % u;
            u = u / 10;
            proof {
                if f != 0 {
                    assert(u == pow10(e));
                }
            }
        }
        assert(fraction_digits(f as nat, u as nat) =~= Seq::<char>::empty());
        assert(t@ =~= old(t)@ + fraction_text(frac as nat, unit as nat));
    }
}

} // verus!
