use vstd::prelude::*;

verus! {

/// Nanoseconds in one second.
pub const NANOS_PER_SEC: u32 = 1_000_000_000;

/// A span of time: whole seconds and the nanoseconds below one second.
#[derive(Debug, Clone, Copy, PartialEq, Eq)]
pub struct Duration {
    secs: u64,
    nanos: u32,
}

impl Duration {
    #[verifier::type_invariant]
    closed spec fn wf(self) -> bool {
        self.nanos < NANOS_PER_SEC
    }

    /// The length of the span in nanoseconds.
    pub closed spec fn spec_nanos(self) -> nat {
        (self.secs * (NANOS_PER_SEC as nat) + self.nanos) as nat
    }

    /// A span of `secs` whole seconds.
    pub fn from_secs(secs: u64) -> (d: Duration)
        ensures
            d.spec_nanos() == secs * 1_000_000_000,
    {
        Duration { secs, nanos: 0 }
    }

    /// A span of `millis` milliseconds.
    pub fn from_millis(millis: u64) -> (d: Duration)
        ensures
            d.spec_nanos() == millis * 1_000_000,
    {
        let secs = millis / 1000;
        let rem = millis % 1000;
        let nanos = (rem as u32) * 1_000_000;
        assert(secs * 1_000_000_000 + rem * 1_000_000 == millis * 1_000_000) by (nonlinear_arith)
            requires
                secs == millis / 1000,
                rem == millis % 1000,
        ;
        Duration { secs, nanos }
    }

    /// A span of `secs` seconds and `nanos` nanoseconds; nanoseconds beyond a
    /// whole second carry over into the seconds.
    pub fn new(secs: u64, nanos: u32) -> (d: Duration)
        requires
            secs + nanos / NANOS_PER_SEC <= u64::MAX,
        ensures
            d.spec_nanos() == secs * 1_000_000_000 + nanos,
    {
        let extra = nanos / NANOS_PER_SEC;
        let rem = nanos % NANOS_PER_SEC;
        assert(extra * 1_000_000_000 + rem == nanos) by (nonlinear_arith)
            requires
                extra == nanos / 1_000_000_000u32,
                rem == nanos % 1_000_000_000u32,
        ;
        assert((secs + extra) * 1_000_000_000 == secs * 1_000_000_000 + extra * 1_000_000_000)
            by (nonlinear_arith);
        Duration { secs: secs + extra as u64, nanos: rem }
    }

    /// The number of whole seconds in the span.
    pub fn as_secs(&self) -> (s: u64)
        ensures
            s == self.spec_nanos() / 1_000_000_000,
    {
        proof {
            use_type_invariant(self);
            lemma_split(self.secs as nat, self.nanos as nat);
        }
        self.secs
    }

    /// The nanoseconds of the span below one whole second.
    pub fn subsec_nanos(&self) -> (n: u32)
        ensures
            n == self.spec_nanos() % 1_000_000_000,
    {
        proof {
            use_type_invariant(self);
            lemma_split(self.secs as nat, self.nanos as nat);
        }
        self.nanos
    }

    /// Whether this span is at least as long as `other`.
    pub fn ge(&self, other: &Duration) -> (b: bool)
        ensures
            b == (self.spec_nanos() >= other.spec_nanos()),
    {
        proof {
            use_type_invariant(self);
            use_type_invariant(other);
            lemma_split(self.secs as nat, self.nanos as nat);
            lemma_split(other.secs as nat, other.nanos as nat);
        }
        if self.secs != other.secs {
            self.secs > other.secs
        } else {
            self.nanos >= other.nanos
        }
    }
}

proof fn lemma_split(secs: nat, nanos: nat)
    requires
        nanos < 1_000_000_000,
    ensures
        (secs * 1_000_000_000 + nanos) / 1_000_000_000 == secs,
        (secs * 1_000_000_000 + nanos) % 1_000_000_000 == nanos,
{
    vstd::arithmetic::div_mod::lemma_fundamental_div_mod_converse(
        (secs * 1_000_000_000 + nanos) as int,
        1_000_000_000,
        secs as int,
        nanos as int,
    );
}

} // verus!
