//! Durations with nanosecond resolution.
use vstd::prelude::*;

verus! {

/// Nanoseconds in a second.
pub const NANOS_PER_SEC: u32 = 1_000_000_000;

/// A span of time: whole seconds and the nanoseconds beyond them.
#[derive(Clone, Copy, Debug, PartialEq, Eq, Structural)]
pub struct Duration {
    secs: u64,
    nanos: u32,
}

impl Duration {
    /// Whether the nanoseconds are less than a second.
    #[verifier::type_invariant]
    pub closed spec fn wf(self) -> bool {
        self.nanos < NANOS_PER_SEC
    }

    /// The length of the span in nanoseconds.
    pub closed spec fn total_nanos(self) -> nat {
        (self.secs * 1_000_000_000 + self.nanos) as nat
    }

    /// A well-formed span is determined by its length.
    pub proof fn law_length_determines_duration(a: Duration, b: Duration)
        requires
            a.wf(),
            b.wf(),
            a.total_nanos() == b.total_nanos(),
        ensures
            a == b,
    {
    }

    /// A span of whole seconds.
    pub fn from_secs(secs: u64) -> (r: Duration)
        ensures
            r.wf(),
            r.total_nanos() == secs * 1_000_000_000,
    {
        Duration { secs, nanos: 0 }
    }

    /// A span of whole milliseconds.
    pub fn from_millis(millis: u64) -> (r: Duration)
        ensures
            r.wf(),
            r.total_nanos() == millis * 1_000_000,
    {
        Duration { secs: millis / 1000, nanos: (millis % 1000) as u32 * 1_000_000 }
    }

    /// A span of seconds and nanoseconds, if the nanoseconds are less than a
    /// second.
    pub fn from_parts(secs: u64, nanos: u32) -> (r: Option<Duration>)
        ensures
            match r {
                Some(d) => nanos < NANOS_PER_SEC && d.wf() && d.total_nanos() == secs
                    * 1_000_000_000 + nanos,
                None => nanos >= NANOS_PER_SEC,
            },
    {
        if nanos < NANOS_PER_SEC {
            Some(Duration { secs, nanos })
        } else {
            None
        }
    }

    /// The whole seconds of the span.
    pub fn as_secs(&self) -> (r: u64)
        ensures
            r == self.total_nanos() / 1_000_000_000,
    {
        proof {
            use_type_invariant(self);
        }
        self.secs
    }

    /// The nanoseconds beyond the whole seconds.
    pub fn subsec_nanos(&self) -> (r: u32)
        ensures
            r == self.total_nanos() % 1_000_000_000,
    {
        proof {
            use_type_invariant(self);
        }
        self.nanos
    }

    /// The span repeated `rhs` times, or `None` where the seconds leave 64 bits.
    pub fn checked_mul(&self, rhs: u32) -> (r: Option<Duration>)
        ensures
            match r {
                Some(d) => d.wf() && d.total_nanos() == self.total_nanos() * rhs,
                None => self.total_nanos() * rhs >= 0x1_0000_0000_0000_0000 * 1_000_000_000,
            },
    {
        proof {
            use_type_invariant(self);
        }
        assert(self.nanos * rhs <= 0xffff_ffff_ffff_ffff && self.secs * rhs
            <= 0xffff_ffff_ffff_ffff * 0xffff_ffff) by (nonlinear_arith)
            requires
                self.nanos <= 0xffff_ffff,
                rhs <= 0xffff_ffff,
                self.secs <= 0xffff_ffff_ffff_ffff,
        ;
        assert(self.total_nanos() * rhs == self.secs * rhs * 1_000_000_000 + self.nanos * rhs)
            by (nonlinear_arith)
            requires
                self.total_nanos() == self.secs * 1_000_000_000 + self.nanos,
        ;
        let nanos_product: u64 = self.nanos as u64 * rhs as u64;
        let carry: u64 = nanos_product / 1_000_000_000;
        let nanos: u32 = (nanos_product % 1_000_000_000) as u32;
        let secs: u128 = self.secs as u128 * rhs as u128 + carry as u128;
        if secs <= u64::MAX as u128 {
            Some(Duration { secs: secs as u64, nanos })
        } else {
            None
        }
    }
}

} // verus!
