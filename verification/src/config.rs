//! The operator's settings and the bounds that follow from them.
//!
//! The raw numbers are taken as given. The bounds seen by the rest of the
//! library are normalised: an inverted minimum and maximum are swapped and the
//! default delay is brought into the window between them, so no setting is
//! ever refused.

use vstd::prelude::*;
use crate::time::Delay;
use crate::time::nanos_of_millis;

verus! {

/// The settings the server is started with. All times are in milliseconds.
pub struct CliArgs {
    /// The delay of a request that asks for none. Ignored in random mode.
    pub sleep_ms: u64,
    /// The host to listen on.
    pub host: String,
    /// Whether log lines are written as JSON.
    pub json: bool,
    /// The shortest delay a request may get, and the lower end of random delays.
    pub min_sleep_ms: u64,
    /// The longest delay a request may get, and the upper end of random delays.
    pub max_sleep_ms: u64,
    /// The port to listen on.
    pub port: u64,
    /// Whether a request that names no kind gets a random delay.
    pub random: bool,
    /// How often verbosity was asked for: once for debug, twice for trace.
    pub verbosity: u64,
    /// Whether the usage endpoints are switched off.
    pub disable_help: bool,
}

impl CliArgs {
    /// The lower bound in force: the smaller of the two configured bounds.
    pub open spec fn effective_min(&self) -> u64 {
        if self.min_sleep_ms <= self.max_sleep_ms {
            self.min_sleep_ms
        } else {
            self.max_sleep_ms
        }
    }

    /// The upper bound in force: the larger of the two configured bounds.
    pub open spec fn effective_max(&self) -> u64 {
        if self.min_sleep_ms <= self.max_sleep_ms {
            self.max_sleep_ms
        } else {
            self.min_sleep_ms
        }
    }

    /// The default delay in force: the configured one, brought into the
    /// window between the bounds in force.
    pub open spec fn effective_default(&self) -> u64 {
        if self.sleep_ms < self.effective_min() {
            self.effective_min()
        } else if self.sleep_ms > self.effective_max() {
            self.effective_max()
        } else {
            self.sleep_ms
        }
    }

    /// The default sleep duration.
    pub fn sleep(&self) -> (r: Delay)
        ensures
            r@ == nanos_of_millis(self.effective_default()),
            r.wf(),
    {
        let min: Delay = self.min_sleep();
        let max: Delay = self.max_sleep();
        Delay::from_millis(self.sleep_ms).min(&max).max(&min)
    }

    /// The minimum allowed sleep duration.
    pub fn min_sleep(&self) -> (r: Delay)
        ensures
            r@ == nanos_of_millis(self.effective_min()),
            r.wf(),
    {
        let min: Delay = Delay::from_millis(self.min_sleep_ms);
        let max: Delay = Delay::from_millis(self.max_sleep_ms);
        min.min(&max)
    }

    /// The maximum allowed sleep duration.
    pub fn max_sleep(&self) -> (r: Delay)
        ensures
            r@ == nanos_of_millis(self.effective_max()),
            r.wf(),
    {
        let min: Delay = Delay::from_millis(self.min_sleep_ms);
        let max: Delay = Delay::from_millis(self.max_sleep_ms);
        max.max(&min)
    }

    /// Whether the configured minimum lies above the configured maximum, so
    /// that the two are swapped.
    pub fn bounds_inverted(&self) -> (r: bool)
        ensures
            r == (self.min_sleep_ms > self.max_sleep_ms),
            r == (self.effective_min() != self.min_sleep_ms),
    {
        self.min_sleep_ms > self.max_sleep_ms
    }

    /// Whether the configured default delay lies outside the configured
    /// bounds as they were written.
    pub fn sleep_out_of_range(&self) -> (r: bool)
        ensures
            r == (self.sleep_ms < self.min_sleep_ms || self.sleep_ms > self.max_sleep_ms),
            !r ==> self.effective_default() == self.sleep_ms,
    {
        self.sleep_ms < self.min_sleep_ms || self.sleep_ms > self.max_sleep_ms
    }

    /// The default delay in force lies within the bounds in force, whatever
    /// was configured.
    pub proof fn lemma_default_within_bounds(self)
        ensures
            self.effective_min() <= self.effective_default() <= self.effective_max(),
    {
    }

    /// Bounds written in order are taken as they are.
    pub proof fn lemma_ordered_bounds_kept(self)
        requires
            self.min_sleep_ms <= self.max_sleep_ms,
        ensures
            self.effective_min() == self.min_sleep_ms,
            self.effective_max() == self.max_sleep_ms,
            self.effective_min() <= self.effective_default() <= self.effective_max(),
    {
    }

    /// Bounds written the wrong way round are swapped.
    pub proof fn lemma_inverted_bounds_swapped(self)
        requires
            self.min_sleep_ms > self.max_sleep_ms,
        ensures
            self.effective_min() == self.max_sleep_ms,
            self.effective_max() == self.min_sleep_ms,
    {
    }
}

impl Default for CliArgs {
    /// The settings of a server started without arguments.
    fn default() -> (r: Self)
        ensures
            r.sleep_ms == 5000,
            r.host@ == "127.0.0.1"@,
            !r.json,
            r.min_sleep_ms == 15,
            r.max_sleep_ms == 30000,
            r.port == 8080,
            !r.random,
            r.verbosity == 0,
            !r.disable_help,
    {
        CliArgs {
            sleep_ms: 5000,
            host: "127.0.0.1".to_owned(),
            json: false,
            min_sleep_ms: 15,
            max_sleep_ms: 30000,
            port: 8080,
            verbosity: 0,
            disable_help: false,
            random: false,
        }
    }
}

} // verus!
