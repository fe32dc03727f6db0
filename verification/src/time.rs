//! Instants and waits with nanosecond resolution, modelled as integers.

use vstd::prelude::*;

verus! {

/// Nanoseconds in one second.
pub const NANOS_PER_SEC: u32 = 1_000_000_000;

/// Largest distance from the epoch, in whole seconds, that an instant may
/// have: about 253,000 years, so that every instant and the second after it
/// are dates that `chrono` can hold.
pub const MAX_EPOCH_SECS: i64 = 8_000_000_000_000;

/// An instant on the UTC time line: whole seconds since 1970-01-01T00:00:00Z
/// and the nanoseconds past that second.
///
/// Its view is the number of nanoseconds since the epoch.
#[derive(Clone, Copy, Debug, PartialEq, Eq)]
pub struct Timestamp {
    secs: i64,
    nanos: u32,
}

/// A strictly positive span of time: how long to sleep before an occurrence.
///
/// Its view is the span in nanoseconds.
#[derive(Clone, Copy, Debug, PartialEq, Eq)]
pub struct Wait {
    secs: u64,
    nanos: u32,
}

/// Whether `secs` and `nanos` are the parts of a representable instant.
pub open spec fn valid_instant(secs: int, nanos: int) -> bool {
    &&& -MAX_EPOCH_SECS <= secs <= MAX_EPOCH_SECS
    &&& 0 <= nanos < NANOS_PER_SEC
}

impl View for Timestamp {
    type V = int;

    closed spec fn view(&self) -> int {
        self.secs * NANOS_PER_SEC + self.nanos
    }
}

impl View for Wait {
    type V = int;

    closed spec fn view(&self) -> int {
        self.secs * NANOS_PER_SEC + self.nanos
    }
}

impl Timestamp {
    #[verifier::type_invariant]
    spec fn well_formed(self) -> bool {
        valid_instant(self.secs as int, self.nanos as int)
    }

    /// The whole seconds of this instant, rounded towards the past.
    pub open spec fn spec_secs(self) -> int {
        self@ / (NANOS_PER_SEC as int)
    }

    /// The nanoseconds past the whole second.
    pub open spec fn spec_subsec_nanos(self) -> int {
        self@ % (NANOS_PER_SEC as int)
    }

    /// Builds the instant `secs` seconds and `nanos` nanoseconds after the
    /// epoch, or `None` when the parts are out of range.
    pub fn new(secs: i64, nanos: u32) -> (r: Option<Timestamp>)
        ensures
            r is Some <==> valid_instant(secs as int, nanos as int),
            r matches Some(t) ==> t@ == secs * NANOS_PER_SEC + nanos,
    {
        if -MAX_EPOCH_SECS <= secs && secs <= MAX_EPOCH_SECS && nanos < NANOS_PER_SEC {
            Some(Timestamp { secs, nanos })
        } else {
            None
        }
    }

    /// Whole seconds since the epoch, rounded towards the past.
    pub fn secs(&self) -> (r: i64)
        ensures
            r == self.spec_secs(),
            valid_instant(self.spec_secs(), self.spec_subsec_nanos()),
    {
        proof {
            use_type_invariant(self);
            lemma_split(self.secs as int, self.nanos as int);
        }
        self.secs
    }

    /// Nanoseconds past the whole second.
    pub fn subsec_nanos(&self) -> (r: u32)
        ensures
            r == self.spec_subsec_nanos(),
    {
        proof {
            use_type_invariant(self);
            lemma_split(self.secs as int, self.nanos as int);
        }
        self.nanos
    }

    /// Whether this instant lies strictly after `other`.
    pub fn is_after(&self, other: &Timestamp) -> (r: bool)
        ensures
            r == (self@ > other@),
    {
        proof {
            use_type_invariant(self);
            use_type_invariant(other);
            lemma_order(self.secs as int, self.nanos as int, other.secs as int, other.nanos as int);
        }
        self.secs > other.secs || (self.secs == other.secs && self.nanos > other.nanos)
    }

    /// The time left from `self` until `occurrence`: `Some` exactly when the
    /// occurrence still lies ahead, and then the exact distance.
    pub fn wait_until(&self, occurrence: &Timestamp) -> (r: Option<Wait>)
        ensures
            r is Some <==> occurrence@ > self@,
            r matches Some(w) ==> w@ == occurrence@ - self@,
    {
        proof {
            use_type_invariant(self);
            use_type_invariant(occurrence);
            lemma_order(
                occurrence.secs as int,
                occurrence.nanos as int,
                self.secs as int,
                self.nanos as int,
            );
        }
        if !occurrence.is_after(self) {
            return None;
        }
        let whole: i64 = occurrence.secs - self.secs;
        if occurrence.nanos >= self.nanos {
            let secs: u64 = whole as u64;
            let nanos: u32 = occurrence.nanos - self.nanos;
            assert(secs * NANOS_PER_SEC + nanos == (occurrence.secs * NANOS_PER_SEC
                + occurrence.nanos) - (self.secs * NANOS_PER_SEC + self.nanos))
                by (nonlinear_arith)
                requires
                    secs == occurrence.secs - self.secs,
                    nanos == occurrence.nanos - self.nanos,
            ;
            Some(Wait { secs, nanos })
        } else {
            let secs: u64 = (whole - 1) as u64;
            let nanos: u32 = NANOS_PER_SEC - self.nanos + occurrence.nanos;
            assert(secs * NANOS_PER_SEC + nanos == (occurrence.secs * NANOS_PER_SEC
                + occurrence.nanos) - (self.secs * NANOS_PER_SEC + self.nanos))
                by (nonlinear_arith)
                requires
                    secs == occurrence.secs - self.secs - 1,
                    nanos == NANOS_PER_SEC - self.nanos + occurrence.nanos,
            ;
            Some(Wait { secs, nanos })
        }
    }
}

impl Wait {
    #[verifier::type_invariant]
    spec fn well_formed(self) -> bool {
        &&& self.nanos < NANOS_PER_SEC
        &&& self.secs > 0 || self.nanos > 0
    }

    /// Whole seconds of the span.
    pub fn secs(&self) -> (r: u64)
        ensures
            r == self@ / (NANOS_PER_SEC as int),
            self@ > 0,
    {
        proof {
            use_type_invariant(self);
            lemma_split(self.secs as int, self.nanos as int);
        }
        self.secs
    }

    /// Nanoseconds of the span past its whole seconds.
    pub fn subsec_nanos(&self) -> (r: u32)
        ensures
            r == self@ % (NANOS_PER_SEC as int),
    {
        proof {
            use_type_invariant(self);
            lemma_split(self.secs as int, self.nanos as int);
        }
        self.nanos
    }
}

/// Seconds and nanoseconds are the quotient and remainder of their sum.
proof fn lemma_split(secs: int, nanos: int)
    requires
        0 <= nanos < NANOS_PER_SEC,
    ensures
        (secs * NANOS_PER_SEC + nanos) / (NANOS_PER_SEC as int) == secs,
        (secs * NANOS_PER_SEC + nanos) % (NANOS_PER_SEC as int) == nanos,
{
    vstd::arithmetic::div_mod::lemma_fundamental_div_mod_converse(
        secs * NANOS_PER_SEC + nanos,
        NANOS_PER_SEC as int,
        secs,
        nanos,
    );
}

/// Comparing by seconds, then nanoseconds, compares the sums.
proof fn lemma_order(s1: int, n1: int, s2: int, n2: int)
    requires
        0 <= n1 < NANOS_PER_SEC,
        0 <= n2 < NANOS_PER_SEC,
    ensures
        (s1 * NANOS_PER_SEC + n1 > s2 * NANOS_PER_SEC + n2) <==> (s1 > s2 || (s1 == s2 && n1
            > n2)),
{
    assert((s1 * NANOS_PER_SEC + n1 > s2 * NANOS_PER_SEC + n2) <==> (s1 > s2 || (s1 == s2 && n1
        > n2))) by (nonlinear_arith)
        requires
            0 <= n1 < 1_000_000_000,
            0 <= n2 < 1_000_000_000,
            NANOS_PER_SEC == 1_000_000_000,
    ;
}

} // verus!
