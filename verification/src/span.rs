//! A span of time with nanosecond precision, as `std::time::Duration` holds it.

use vstd::prelude::*;

verus! {

/// Nanoseconds in one second.
pub const NANOS_PER_SEC: u32 = 1_000_000_000;

/// Nanoseconds in one millisecond.
pub const NANOS_PER_MILLI: u32 = 1_000_000;

/// A length of time: whole seconds and the nanoseconds of the second that follows,
/// exactly the values a `std::time::Duration` holds.
#[derive(Clone, Copy, Debug, PartialEq, Eq)]
pub struct Span {
    secs: u64,
    nanos: u32,
}

impl View for Span {
    type V = nat;

    /// The length in nanoseconds.
    closed spec fn view(&self) -> nat {
        (self.secs * NANOS_PER_SEC + self.nanos) as nat
    }
}

impl Span {
    /// The nanoseconds part is always below one second.
    #[verifier::type_invariant]
    pub closed spec fn inv(self) -> bool {
        self.nanos < NANOS_PER_SEC
    }

    /// The whole seconds of the span.
    pub closed spec fn spec_secs(self) -> nat {
        self.secs as nat
    }

    /// Builds a span from whole seconds and extra nanoseconds, carrying whole seconds out
    /// of `nanos` as `Duration::new` does.
    pub fn new(secs: u64, nanos: u32) -> (span: Span)
        requires
            secs + nanos / NANOS_PER_SEC <= u64::MAX,
        ensures
            span@ == secs * NANOS_PER_SEC + nanos,
    {
        let carry = nanos / NANOS_PER_SEC;
        let rest = nanos % NANOS_PER_SEC;
        assert(nanos == carry * NANOS_PER_SEC + rest);
        Span { secs: secs + carry as u64, nanos: rest }
    }

    /// The empty span.
    pub fn zero() -> (span: Span)
        ensures
            span@ == 0,
    {
        Span { secs: 0, nanos: 0 }
    }

    /// The longest span: `u64::MAX` seconds and 999,999,999 nanoseconds.
    pub fn max_value() -> (span: Span)
        ensures
            span@ == u64::MAX * NANOS_PER_SEC + (NANOS_PER_SEC - 1),
    {
        Span { secs: u64::MAX, nanos: NANOS_PER_SEC - 1 }
    }

    /// `secs` whole seconds.
    pub fn from_secs(secs: u64) -> (span: Span)
        ensures
            span@ == secs * NANOS_PER_SEC,
    {
        Span { secs, nanos: 0 }
    }

    /// `millis` milliseconds.
    pub fn from_millis(millis: u64) -> (span: Span)
        ensures
            span@ == millis * NANOS_PER_MILLI,
    {
        let secs = millis / 1000;
        let rest = millis % 1000;
        assert(millis == secs * 1000 + rest);
        assert(rest * NANOS_PER_MILLI < NANOS_PER_SEC) by (nonlinear_arith)
            requires
                rest < 1000,
        ;
        Span { secs, nanos: (rest as u32) * NANOS_PER_MILLI }
    }

    /// `nanos` nanoseconds.
    pub fn from_nanos(nanos: u64) -> (span: Span)
        ensures
            span@ == nanos,
    {
        let secs = nanos / (NANOS_PER_SEC as u64);
        let rest = nanos % (NANOS_PER_SEC as u64);
        proof {
            vstd::arithmetic::div_mod::lemma_fundamental_div_mod(nanos as int, NANOS_PER_SEC as int);
        }
        Span { secs, nanos: rest as u32 }
    }

    /// The whole seconds.
    pub fn as_secs(&self) -> (secs: u64)
        ensures
            secs == self@ / (NANOS_PER_SEC as nat),
    {
        proof {
            use_type_invariant(self);
            lemma_split(self.secs as nat, self.nanos as nat, NANOS_PER_SEC as nat);
        }
        self.secs
    }

    /// The nanoseconds past the whole seconds.
    pub fn subsec_nanos(&self) -> (nanos: u32)
        ensures
            nanos == self@ % (NANOS_PER_SEC as nat),
    {
        proof {
            use_type_invariant(self);
            lemma_split(self.secs as nat, self.nanos as nat, NANOS_PER_SEC as nat);
        }
        self.nanos
    }

    /// Whether the span is empty.
    pub fn is_zero(&self) -> (zero: bool)
        ensures
            zero == (self@ == 0),
    {
        self.secs == 0 && self.nanos == 0
    }

    /// The whole milliseconds.
    pub fn as_millis(&self) -> (millis: u128)
        ensures
            millis == self@ / (NANOS_PER_MILLI as nat),
    {
        proof {
            use_type_invariant(self);
            let s = self.secs as nat;
            let n = self.nanos as nat;
            assert(s * NANOS_PER_SEC + n == (s * 1000) * NANOS_PER_MILLI + n) by (nonlinear_arith);
            lemma_shift_div(s * 1000, n, NANOS_PER_MILLI as nat);
        }
        (self.secs as u128) * 1000 + (self.nanos / NANOS_PER_MILLI) as u128
    }

    /// The sum, or `None` where it would not fit, as `Duration::checked_add`.
    pub fn checked_add(&self, other: &Span) -> (sum: Option<Span>)
        ensures
            match sum {
                Some(s) => s@ == self@ + other@,
                None => self@ + other@ > u64::MAX * NANOS_PER_SEC + (NANOS_PER_SEC - 1),
            },
    {
        proof {
            use_type_invariant(self);
            use_type_invariant(other);
        }
        let nanos = self.nanos + other.nanos;
        let (carry, rest): (u64, u32) = if nanos >= NANOS_PER_SEC {
            (1, nanos - NANOS_PER_SEC)
        } else {
            (0, nanos)
        };
        if self.secs as u128 + other.secs as u128 + carry as u128 > u64::MAX as u128 {
            proof {
                let a = self.secs as int;
                let b = other.secs as int;
                assert((a + b + carry) * NANOS_PER_SEC + rest == a * NANOS_PER_SEC + b * NANOS_PER_SEC
                    + self.nanos + other.nanos) by (nonlinear_arith)
                    requires
                        carry * NANOS_PER_SEC + rest == self.nanos + other.nanos,
                ;
                assert((a + b + carry) * NANOS_PER_SEC >= (u64::MAX as int + 1) * NANOS_PER_SEC)
                    by (nonlinear_arith)
                    requires
                        a + b + carry >= u64::MAX as int + 1,
                ;
            }
            None
        } else {
            let secs = self.secs + other.secs + carry;
            proof {
                let a = self.secs as int;
                let b = other.secs as int;
                assert((a + b + carry) * NANOS_PER_SEC + rest == a * NANOS_PER_SEC + b * NANOS_PER_SEC
                    + self.nanos + other.nanos) by (nonlinear_arith)
                    requires
                        carry * NANOS_PER_SEC + rest == self.nanos + other.nanos,
                ;
            }
            Some(Span { secs, nanos: rest })
        }
    }
}

/// `(s * d + n) / d == s` and `(s * d + n) % d == n` for `n < d`.
proof fn lemma_split(s: nat, n: nat, d: nat)
    requires
        0 < d,
        n < d,
    ensures
        (s * d + n) / d == s,
        (s * d + n) % d == n,
{
    vstd::arithmetic::div_mod::lemma_fundamental_div_mod_converse(
        (s * d + n) as int,
        d as int,
        s as int,
        n as int,
    );
}

/// `(k * d + n) / d == k + n / d`.
proof fn lemma_shift_div(k: nat, n: nat, d: nat)
    requires
        0 < d,
    ensures
        (k * d + n) / d == k + n / d,
{
    vstd::arithmetic::div_mod::lemma_fundamental_div_mod(n as int, d as int);
    let q = n / d;
    let r = n % d;
    assert(k * d + n == (k + q) * d + r) by (nonlinear_arith)
        requires
            n == d * q + r,
    ;
    vstd::arithmetic::div_mod::lemma_fundamental_div_mod_converse(
        (k * d + n) as int,
        d as int,
        (k + q) as int,
        r as int,
    );
}

} // verus!
