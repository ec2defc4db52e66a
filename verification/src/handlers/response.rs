//! The body of a reply: what was resolved for a request, ready to be
//! written out field by field.

use vstd::prelude::*;
use crate::handlers::SlumberKind;
use crate::time::Delay;

verus! {

/// The body of a reply.
pub struct SlumberResponse {
    /// What was resolved.
    pub duration: SlumberDuration,
    /// The identifier of the request.
    pub request_id: u128,
}

/// What was resolved for a request, in milliseconds and in words. The
/// bounds are present for a random delay only.
pub struct SlumberDuration {
    /// How the delay was chosen.
    pub kind: SlumberKind,
    /// The delay in whole milliseconds.
    pub duration_millis: u128,
    /// The delay as it is shown to a reader.
    pub duration_pretty: String,
    /// The upper end of the window, as it is shown to a reader.
    pub max_pretty: Option<String>,
    /// The upper end of the window in whole milliseconds.
    pub max_millis: Option<u128>,
    /// The lower end of the window in whole milliseconds.
    pub min_millis: Option<u128>,
    /// The lower end of the window, as it is shown to a reader.
    pub min_pretty: Option<String>,
}

/// What a [`SlumberDuration`] says, with its texts as sequences of
/// characters.
pub struct SlumberDurationView {
    pub kind: SlumberKind,
    pub duration_millis: nat,
    pub duration_pretty: Seq<char>,
    pub max_pretty: Option<Seq<char>>,
    pub max_millis: Option<nat>,
    pub min_millis: Option<nat>,
    pub min_pretty: Option<Seq<char>>,
}

/// The characters of a text that may be absent.
pub open spec fn text_view(text: Option<String>) -> Option<Seq<char>> {
    match text {
        Some(t) => Some(t@),
        None => None,
    }
}

/// A number that may be absent, as a mathematical integer.
pub open spec fn millis_view(millis: Option<u128>) -> Option<nat> {
    match millis {
        Some(m) => Some(m as nat),
        None => None,
    }
}

/// The whole milliseconds of a bound that may be absent.
pub open spec fn bound_millis(bound: Option<Delay>) -> Option<nat> {
    match bound {
        Some(d) => Some(d.spec_as_millis()),
        None => None,
    }
}

/// A bound that may be absent, as it is shown to a reader.
pub open spec fn bound_pretty(bound: Option<Delay>) -> Option<Seq<char>> {
    match bound {
        Some(d) => Some(d.spec_pretty()),
        None => None,
    }
}

impl View for SlumberDuration {
    type V = SlumberDurationView;

    open spec fn view(&self) -> SlumberDurationView {
        SlumberDurationView {
            kind: self.kind,
            duration_millis: self.duration_millis as nat,
            duration_pretty: self.duration_pretty@,
            max_pretty: text_view(self.max_pretty),
            max_millis: millis_view(self.max_millis),
            min_millis: millis_view(self.min_millis),
            min_pretty: text_view(self.min_pretty),
        }
    }
}

impl SlumberResponse {
    /// Starts the body of a reply for a request that was given `duration`,
    /// with no bounds to report yet.
    pub fn builder(request_id: u128, kind: SlumberKind, duration: &Delay) -> (r:
        SlumberResponseBuilder)
        ensures
            r == (SlumberResponseBuilder {
                kind,
                request_id,
                duration: *duration,
                min: None,
                max: None,
            }),
    {
        SlumberResponseBuilder { request_id, kind, duration: *duration, min: None, max: None }
    }
}

/// The parts of a reply's body while they are gathered.
pub struct SlumberResponseBuilder {
    /// How the delay was chosen.
    pub kind: SlumberKind,
    /// The identifier of the request.
    pub request_id: u128,
    /// The delay.
    pub duration: Delay,
    /// The lower end of the window, once it was given.
    pub min: Option<Delay>,
    /// The upper end of the window, once it was given.
    pub max: Option<Delay>,
}

impl SlumberResponseBuilder {
    /// What [`build`](Self::build) reports for these parts.
    pub open spec fn spec_build(self) -> SlumberDurationView {
        SlumberDurationView {
            kind: self.kind,
            duration_millis: self.duration.spec_as_millis(),
            duration_pretty: self.duration.spec_pretty(),
            max_pretty: bound_pretty(self.max),
            max_millis: bound_millis(self.max),
            min_millis: bound_millis(self.min),
            min_pretty: bound_pretty(self.min),
        }
    }

    /// Gives the lower end of the window.
    pub fn min(self, duration: &Delay) -> (r: Self)
        ensures
            r == (SlumberResponseBuilder { min: Some(*duration), ..self }),
    {
        let mut next: SlumberResponseBuilder = self;
        next.min = Some(*duration);
        next
    }

    /// Gives the upper end of the window.
    pub fn max(self, duration: &Delay) -> (r: Self)
        ensures
            r == (SlumberResponseBuilder { max: Some(*duration), ..self }),
    {
        let mut next: SlumberResponseBuilder = self;
        next.max = Some(*duration);
        next
    }

    /// The body that reports the gathered parts.
    pub fn build(self) -> (r: SlumberResponse)
        ensures
            r.request_id == self.request_id,
            r.duration@ == self.spec_build(),
    {
        let max_pretty: Option<String> = match &self.max {
            Some(d) => Some(d.pretty()),
            None => None,
        };
        let max_millis: Option<u128> = match &self.max {
            Some(d) => Some(d.as_millis()),
            None => None,
        };
        let min_pretty: Option<String> = match &self.min {
            Some(d) => Some(d.pretty()),
            None => None,
        };
        let min_millis: Option<u128> = match &self.min {
            Some(d) => Some(d.as_millis()),
            None => None,
        };
        SlumberResponse {
            request_id: self.request_id,
            duration: SlumberDuration {
                kind: self.kind,
                duration_millis: self.duration.as_millis(),
                duration_pretty: self.duration.pretty(),
                max_pretty,
                max_millis,
                min_millis,
                min_pretty,
            },
        }
    }
}

} // verus!
