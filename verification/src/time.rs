//! Lengths of time with nanosecond resolution.
//!
//! `std::time::Duration` is opaque to the verifier, so delays are carried in
//! [`Delay`], which holds the same two numbers a `Duration` does and whose
//! view is the total number of nanoseconds.

use vstd::prelude::*;
use rand::Rng;
use std::time::Duration;

verus! {

/// Nanoseconds in one millisecond.
pub const NANOS_PER_MILLI: u32 = 1_000_000;

/// Milliseconds in one second.
pub const MILLIS_PER_SEC: u64 = 1_000;

/// The number of nanoseconds in `millis` milliseconds.
pub open spec fn nanos_of_millis(millis: u64) -> nat {
    millis as nat * 1_000_000
}

/// The smaller of two lengths.
pub open spec fn least(a: nat, b: nat) -> nat {
    if a <= b {
        a
    } else {
        b
    }
}

/// The larger of two lengths.
pub open spec fn greatest(a: nat, b: nat) -> nat {
    if a >= b {
        a
    } else {
        b
    }
}

/// What `Debug` formatting writes for the `std::time::Duration` of `secs`
/// whole seconds and `nanos` nanoseconds beyond them, such as `2.5s` or
/// `15ms`.
pub uninterp spec fn duration_debug(secs: u64, nanos: u32) -> Seq<char>;

/// A length of time: whole seconds, and the nanoseconds beyond them.
#[derive(Clone, Copy, Debug, PartialEq, Eq, Structural)]
pub struct Delay {
    secs: u64,
    nanos: u32,
}

impl View for Delay {
    type V = nat;

    /// The whole length in nanoseconds.
    open spec fn view(&self) -> nat {
        self.spec_as_secs() as nat * 1_000_000_000 + self.spec_subsec_nanos() as nat
    }
}

impl Delay {
    /// The whole seconds of this delay.
    pub closed spec fn spec_as_secs(self) -> u64 {
        self.secs
    }

    /// The part of this delay beyond its whole seconds, in nanoseconds.
    pub closed spec fn spec_subsec_nanos(self) -> u32 {
        self.nanos
    }

    /// The fractional part is less than one second. Every `Delay` that
    /// executable code can hold satisfies this.
    #[verifier::type_invariant]
    pub open spec fn wf(self) -> bool {
        self.spec_subsec_nanos() < 1_000_000_000
    }

    /// The whole milliseconds of this delay.
    pub open spec fn spec_as_millis(self) -> nat {
        self@ / 1_000_000
    }

    /// This delay as it is shown to a reader.
    pub open spec fn spec_pretty(self) -> Seq<char> {
        duration_debug(self.spec_as_secs(), self.spec_subsec_nanos())
    }

    /// Two well-formed delays of the same length are the same value.
    pub proof fn lemma_view_injective(a: Delay, b: Delay)
        requires
            a.wf(),
            b.wf(),
            a@ == b@,
        ensures
            a == b,
    {
    }

    /// A delay of `millis` milliseconds.
    pub fn from_millis(millis: u64) -> (r: Delay)
        ensures
            r@ == nanos_of_millis(millis),
            r.spec_as_secs() == millis / 1_000,
            r.spec_subsec_nanos() == (millis % 1_000) * 1_000_000,
            r.wf(),
    {
        let secs: u64 = millis / MILLIS_PER_SEC;
        let rest: u32 = (millis % MILLIS_PER_SEC) as u32;
        Delay { secs, nanos: rest * NANOS_PER_MILLI }
    }

    /// The whole seconds of this delay.
    pub fn as_secs(&self) -> (r: u64)
        ensures
            r == self.spec_as_secs(),
    {
        self.secs
    }

    /// The nanoseconds of this delay beyond its whole seconds.
    pub fn subsec_nanos(&self) -> (r: u32)
        ensures
            r == self.spec_subsec_nanos(),
            r < 1_000_000_000,
    {
        proof {
            use_type_invariant(self);
        }
        self.nanos
    }

    /// The whole milliseconds of this delay; what is beyond them is dropped.
    pub fn as_millis(&self) -> (r: u128)
        ensures
            r == self.spec_as_millis(),
    {
        proof {
            use_type_invariant(self);
        }
        let whole: u128 = self.secs as u128 * 1_000;
        let part: u32 = self.nanos / NANOS_PER_MILLI;
        whole + part as u128
    }

    /// Whether this delay is no longer than `other`.
    pub fn le(&self, other: &Delay) -> (r: bool)
        ensures
            r == (self@ <= other@),
    {
        proof {
            use_type_invariant(self);
            use_type_invariant(other);
        }
        self.secs < other.secs || (self.secs == other.secs && self.nanos <= other.nanos)
    }

    /// Whether this delay is shorter than `other`.
    pub fn lt(&self, other: &Delay) -> (r: bool)
        ensures
            r == (self@ < other@),
    {
        proof {
            use_type_invariant(self);
            use_type_invariant(other);
        }
        self.secs < other.secs || (self.secs == other.secs && self.nanos < other.nanos)
    }

    /// The shorter of this delay and `other`.
    pub fn min(&self, other: &Delay) -> (r: Delay)
        ensures
            r@ == least(self@, other@),
            r == *self || r == *other,
            r.wf(),
    {
        proof {
            use_type_invariant(self);
            use_type_invariant(other);
        }
        if self.le(other) {
            *self
        } else {
            *other
        }
    }

    /// The longer of this delay and `other`.
    pub fn max(&self, other: &Delay) -> (r: Delay)
        ensures
            r@ == greatest(self@, other@),
            r == *self || r == *other,
            r.wf(),
    {
        proof {
            use_type_invariant(self);
            use_type_invariant(other);
        }
        if other.le(self) {
            *self
        } else {
            *other
        }
    }
}

impl Delay {
    /// The `Debug` formatting of `std::time::Duration`, applied to the
    /// `Duration` of this length. Trusted: the text is the one that
    /// formatting writes for these seconds and nanoseconds, and depends on
    /// nothing else.
    #[verifier::external_body]
    pub(crate) fn pretty(&self) -> (r: String)
        ensures
            r@ == duration_debug(self.spec_as_secs(), self.spec_subsec_nanos()),
    {
        format!("{:?}", Duration::new(self.secs, self.nanos))
    }

    /// `Rng::gen_range` of rand, called on `rand::thread_rng()` with two
    /// `Duration`s. Trusted: for `low` shorter than `high` the call returns,
    /// and what it returns is no shorter than `low` and shorter than `high`.
    /// With `low` not shorter than `high` the call panics, so such bounds
    /// are not admitted.
    #[verifier::external_body]
    pub(crate) fn random_between(low: &Delay, high: &Delay) -> (r: Delay)
        requires
            low@ < high@,
        ensures
            low@ <= r@ < high@,
            r.wf(),
    {
        let from: Duration = Duration::new(low.secs, low.nanos);
        let to: Duration = Duration::new(high.secs, high.nanos);
        let picked: Duration = rand::thread_rng().gen_range(from, to);
        Delay { secs: picked.as_secs(), nanos: picked.subsec_nanos() }
    }
}

} // verus!
