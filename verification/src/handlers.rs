//! What a request asks for, the delay that is resolved from it, and the
//! reply that reports the resolution.
//!
//! A request may ask for a kind, a delay and a window, each in its query
//! string or in a header. The query string is heard first, then the header,
//! then the operator's setting. A value that cannot be read counts as absent.
//!
//! A fixed delay always lies within the operator's bounds. A random delay
//! lies within its window, and the window lies within the operator's bounds
//! where the request reaches into them: where it asks for a lower end that
//! is not above the operator's maximum and an upper end that is not below
//! the operator's minimum. A request that lies wholly on one side of the
//! bounds gets the window between its near end and the bound it faces.

pub mod path;
pub mod response;

use vstd::prelude::*;
use vstd::utf8::encode_utf8;
use actix_web::http::HeaderMap;
use crate::config::CliArgs;
use crate::handlers::response::SlumberResponse;
use crate::ident::fresh_request_id;
use crate::ident::id_text;
use crate::ident::is_random_id;
use crate::ident::request_id_text;
use crate::text::decimal_digits;
use crate::text::decimal_text;
use crate::text::parse_millis;
use crate::text::parsed_millis;
use crate::text::same_text;
use crate::time::Delay;
use crate::time::greatest;
use crate::time::least;
use crate::time::nanos_of_millis;

verus! {

/// The header that shows the lower end of the window in words.
pub const MINIMUM_SLEEP_TIME_HEADER: &'static str = "X-Slumber-Min-Time";

/// The header that asks for, or shows, the lower end of the window in
/// milliseconds.
pub const MINIMUM_SLEEP_TIME_MS_HEADER: &'static str = "X-Slumber-Min-Time-Millis";

/// The header that shows the upper end of the window in words.
pub const MAXIMUM_SLEEP_TIME_HEADER: &'static str = "X-Slumber-Max-Time";

/// The header that asks for, or shows, the upper end of the window in
/// milliseconds.
pub const MAXIMUM_SLEEP_TIME_MS_HEADER: &'static str = "X-Slumber-Max-Time-Millis";

/// The header that shows the identifier of the request.
pub const REQUEST_ID_HEADER: &'static str = "X-Request-Id";

/// The header that shows the delay in words.
pub const SLEEP_TIME_HEADER: &'static str = "X-Slumber-Time";

/// The header that asks for, or shows, the delay in milliseconds.
pub const SLEEP_TIME_MS_HEADER: &'static str = "X-Slumber-Time-Millis";

/// The header that asks for, or shows, the kind.
pub const SLEEP_KIND_HEADER: &'static str = "X-Slumber-Type";

/// How the delay of a request is chosen.
#[derive(Clone, Copy, Debug, PartialEq, Eq, Structural)]
pub enum SlumberKind {
    /// The delay is the one asked for, within the operator's bounds.
    Fixed,
    /// The delay is drawn from a window that the request and the operator's
    /// bounds give together.
    Random,
}

/// The kind that `text` names, if it names one.
pub open spec fn parsed_kind(text: Seq<char>) -> Option<SlumberKind> {
    if text == "fixed"@ {
        Some(SlumberKind::Fixed)
    } else if text == "random"@ {
        Some(SlumberKind::Random)
    } else {
        None
    }
}

/// The number that a text which may be absent writes, if it writes one.
pub open spec fn parsed_millis_of(text: Option<Seq<char>>) -> Option<u64> {
    match text {
        Some(t) => parsed_millis(t),
        None => None,
    }
}

/// The kind that a text which may be absent names, if it names one.
pub open spec fn parsed_kind_of(text: Option<Seq<char>>) -> Option<SlumberKind> {
    match text {
        Some(t) => parsed_kind(t),
        None => None,
    }
}

impl SlumberKind {
    /// The word for this kind in a reply.
    pub open spec fn spec_name(self) -> Seq<char> {
        match self {
            SlumberKind::Fixed => "fixed"@,
            SlumberKind::Random => "random"@,
        }
    }

    /// The word for this kind in a reply.
    pub fn name(&self) -> (r: &'static str)
        ensures
            r@ == self.spec_name(),
            parsed_kind(r@) == Some(*self),
    {
        proof {
            reveal_strlit("fixed");
            reveal_strlit("random");
            assert("fixed"@ != "random"@) by {
                assert("fixed"@.len() == 5);
                assert("random"@.len() == 6);
            }
        }
        match self {
            SlumberKind::Fixed => "fixed",
            SlumberKind::Random => "random",
        }
    }

    /// Reads a kind from `text`: `fixed` or `random`, in exactly this
    /// spelling.
    pub fn parse(text: &str) -> (r: Option<SlumberKind>)
        ensures
            r == parsed_kind(text@),
    {
        if same_text(text, "fixed") {
            Some(SlumberKind::Fixed)
        } else if same_text(text, "random") {
            Some(SlumberKind::Random)
        } else {
            None
        }
    }
}

/// The overrides a request carries in its query string.
#[derive(Clone, Copy, Debug, PartialEq, Eq, Structural)]
pub struct SleepQueryParams {
    /// The kind asked for.
    pub kind: Option<SlumberKind>,
    /// The lower end of the window asked for, in milliseconds.
    pub min: Option<u64>,
    /// The upper end of the window asked for, in milliseconds.
    pub max: Option<u64>,
    /// The delay asked for, in milliseconds.
    pub duration: Option<u64>,
}

impl Default for SleepQueryParams {
    /// A query string that overrides nothing.
    fn default() -> (r: Self)
        ensures
            r == (SleepQueryParams { kind: None, min: None, max: None, duration: None }),
    {
        SleepQueryParams { kind: None, min: None, max: None, duration: None }
    }
}

/// The characters of a raw value that may be absent.
pub open spec fn raw_view(raw: Option<&str>) -> Option<Seq<char>> {
    match raw {
        Some(t) => Some(t@),
        None => None,
    }
}

impl SleepQueryParams {
    /// The overrides in the raw values of the query parameters `type`,
    /// `min`, `max` and `time`. A value that does not read as what its
    /// parameter holds is dropped, as if the parameter were not there.
    pub fn from_raw(
        kind: Option<&str>,
        min: Option<&str>,
        max: Option<&str>,
        time: Option<&str>,
    ) -> (r: Self)
        ensures
            r.kind == parsed_kind_of(raw_view(kind)),
            r.min == parsed_millis_of(raw_view(min)),
            r.max == parsed_millis_of(raw_view(max)),
            r.duration == parsed_millis_of(raw_view(time)),
    {
        SleepQueryParams {
            kind: match kind {
                Some(text) => SlumberKind::parse(text),
                None => None,
            },
            min: read_millis(min),
            max: read_millis(max),
            duration: read_millis(time),
        }
    }
}

/// The number that a raw value which may be absent writes.
fn read_millis(raw: Option<&str>) -> (r: Option<u64>)
    ensures
        r == parsed_millis_of(raw_view(raw)),
{
    match raw {
        Some(text) => parse_millis(text),
        None => None,
    }
}

/// The `HeaderMap` of actix-web: the headers of a request. Nothing inside
/// it is visible here; what a lookup finds in it goes by the name
/// [`header_lookup`].
#[verifier::external_type_specification]
#[verifier::external_body]
pub struct ExHeaderMap(actix_web::http::HeaderMap);

/// The headers of a request as a lookup reads them: every name under which
/// `HeaderMap::get` finds a value, in every spelling that finds it, with the
/// bytes of the value that `get` returns for it.
pub uninterp spec fn header_lookup(headers: HeaderMap) -> Map<Seq<char>, Seq<u8>>;

/// Whether `b` is a visible ASCII character, a blank or a tab.
pub open spec fn is_visible_ascii(b: u8) -> bool {
    (32 <= b < 127) || b == 9
}

/// Whether a header value can be read as text: every byte of it is visible
/// ASCII.
pub open spec fn readable(bytes: Seq<u8>) -> bool {
    forall|i: int| 0 <= i < bytes.len() ==> is_visible_ascii(#[trigger] bytes[i])
}

/// The text that bytes of ASCII write.
pub open spec fn ascii_text(bytes: Seq<u8>) -> Seq<char> {
    Seq::new(bytes.len(), |i: int| bytes[i] as char)
}

/// The text of the header `name`, if the request has it and it can be read
/// as text.
pub open spec fn header_text(headers: HeaderMap, name: Seq<char>) -> Option<Seq<char>> {
    if header_lookup(headers).dom().contains(name) && readable(header_lookup(headers)[name]) {
        Some(ascii_text(header_lookup(headers)[name]))
    } else {
        None
    }
}

/// Whether a text is short enough to be looked up as the name of a header:
/// as UTF-8 it takes fewer than 65,536 bytes.
pub open spec fn fits_header_name(name: Seq<char>) -> bool {
    encode_utf8(name).len() < 65_536
}

/// A text takes at most four bytes for each of its characters.
pub proof fn lemma_bytes_per_char(text: Seq<char>)
    ensures
        encode_utf8(text).len() <= 4 * text.len(),
    decreases text.len(),
{
    if text.len() > 0 {
        lemma_bytes_per_char(text.drop_first());
    }
}

/// A text of at most 16,383 characters is short enough for the name of a
/// header, whatever its characters are.
pub proof fn lemma_short_name_fits(name: Seq<char>)
    requires
        name.len() <= 16_383,
    ensures
        fits_header_name(name),
{
    lemma_bytes_per_char(name);
}

/// `HeaderMap::get` of actix-web, and `HeaderValue::to_str` on what it
/// finds. Trusted: a text comes back exactly when the map has a value under
/// `name` and every byte of the value that `get` returns for it is visible
/// ASCII, and the text is then those bytes. Where a header was sent more
/// than once, which of its values `get` returns is the map's affair. The
/// lookup panics on a name of 65,536 bytes or more, so such names are not
/// admitted.
#[verifier::external_body]
pub(crate) fn read_header(headers: &HeaderMap, name: &str) -> (r: Option<String>)
    requires
        fits_header_name(name@),
    ensures
        r is Some <==> header_text(*headers, name@) is Some,
        r matches Some(text) ==> text@ == ascii_text(header_lookup(*headers)[name@]),
{
    match headers.get(name) {
        Some(value) => match value.to_str() {
            Ok(text) => Some(text.to_owned()),
            Err(_) => None,
        },
        None => None,
    }
}

/// The value in force for one field: the one from the query string if there
/// is one, else the one the header writes if it writes one, else the
/// fallback.
pub open spec fn resolved_millis(query: Option<u64>, header: Option<Seq<char>>, fallback: u64)
    -> u64 {
    match query {
        Some(q) => q,
        None => match parsed_millis_of(header) {
            Some(h) => h,
            None => fallback,
        },
    }
}

/// The kind in force: the one from the query string if there is one, else
/// the one the header names if it names one, else the fallback.
pub open spec fn resolved_kind(
    query: Option<SlumberKind>,
    header: Option<Seq<char>>,
    fallback: SlumberKind,
) -> SlumberKind {
    match query {
        Some(q) => q,
        None => match parsed_kind_of(header) {
            Some(h) => h,
            None => fallback,
        },
    }
}

/// The kind of a request that names none.
pub open spec fn default_kind(config: CliArgs) -> SlumberKind {
    if config.random {
        SlumberKind::Random
    } else {
        SlumberKind::Fixed
    }
}

/// Extract a duration using a query string value, header value, or the
/// default value in that priority. The name of the header must be short
/// enough to be looked up.
pub fn extract_duration(headers: &HeaderMap, name: &str, qs: Option<u64>, default: u64) -> (r:
    Delay)
    requires
        fits_header_name(name@),
    ensures
        r@ == nanos_of_millis(resolved_millis(qs, header_text(*headers, name@), default)),
        r.wf(),
{
    let from_header: Option<u64> = match read_header(headers, name) {
        Some(text) => parse_millis(text.as_str()),
        None => None,
    };
    let millis: u64 = match qs {
        Some(q) => q,
        None => match from_header {
            Some(h) => h,
            None => default,
        },
    };
    Delay::from_millis(millis)
}

/// Extract the sleep kind from the query string, the headers, or the
/// configuration default in that priority.
pub fn extract_sleep_kind(headers: &HeaderMap, query: &SleepQueryParams, config: &CliArgs) -> (r:
    SlumberKind)
    ensures
        r == resolved_kind(
            query.kind,
            header_text(*headers, SLEEP_KIND_HEADER@),
            default_kind(*config),
        ),
{
    let default: SlumberKind = if config.random {
        SlumberKind::Random
    } else {
        SlumberKind::Fixed
    };
    proof {
        reveal_strlit("X-Slumber-Type");
        lemma_short_name_fits(SLEEP_KIND_HEADER@);
    }
    let from_header: Option<SlumberKind> = match read_header(headers, SLEEP_KIND_HEADER) {
        Some(text) => SlumberKind::parse(text.as_str()),
        None => None,
    };
    match query.kind {
        Some(q) => q,
        None => match from_header {
            Some(h) => h,
            None => default,
        },
    }
}

/// Extract the minimum sleep time: the lower end of the window the request
/// asks for, or the operator's minimum as it was configured.
pub fn extract_sleep_min_time(headers: &HeaderMap, query: &SleepQueryParams, config: &CliArgs)
    -> (r: Delay)
    ensures
        r@ == nanos_of_millis(
            resolved_millis(
                query.min,
                header_text(*headers, MINIMUM_SLEEP_TIME_MS_HEADER@),
                config.min_sleep_ms,
            ),
        ),
        r.wf(),
{
    proof {
        reveal_strlit("X-Slumber-Min-Time-Millis");
        lemma_short_name_fits(MINIMUM_SLEEP_TIME_MS_HEADER@);
    }
    extract_duration(headers, MINIMUM_SLEEP_TIME_MS_HEADER, query.min, config.min_sleep_ms)
}

/// Extract the maximum sleep time: the upper end of the window the request
/// asks for, or the operator's maximum as it was configured.
pub fn extract_sleep_max_time(headers: &HeaderMap, query: &SleepQueryParams, config: &CliArgs)
    -> (r: Delay)
    ensures
        r@ == nanos_of_millis(
            resolved_millis(
                query.max,
                header_text(*headers, MAXIMUM_SLEEP_TIME_MS_HEADER@),
                config.max_sleep_ms,
            ),
        ),
        r.wf(),
{
    proof {
        reveal_strlit("X-Slumber-Max-Time-Millis");
        lemma_short_name_fits(MAXIMUM_SLEEP_TIME_MS_HEADER@);
    }
    extract_duration(headers, MAXIMUM_SLEEP_TIME_MS_HEADER, query.max, config.max_sleep_ms)
}

/// Extract the requested sleep duration: the delay the request asks for, or
/// the operator's default as it was configured.
pub fn extract_sleep_time(headers: &HeaderMap, query: &SleepQueryParams, config: &CliArgs) -> (r:
    Delay)
    ensures
        r@ == nanos_of_millis(
            resolved_millis(
                query.duration,
                header_text(*headers, SLEEP_TIME_MS_HEADER@),
                config.sleep_ms,
            ),
        ),
        r.wf(),
{
    proof {
        reveal_strlit("X-Slumber-Time-Millis");
        lemma_short_name_fits(SLEEP_TIME_MS_HEADER@);
    }
    extract_duration(headers, SLEEP_TIME_MS_HEADER, query.duration, config.sleep_ms)
}

/// A value in the query string is heard before the header and the fallback.
pub proof fn lemma_query_overrides(
    query: u64,
    kind: SlumberKind,
    header: Option<Seq<char>>,
    fallback: u64,
    fallback_kind: SlumberKind,
)
    ensures
        resolved_millis(Some(query), header, fallback) == query,
        resolved_kind(Some(kind), header, fallback_kind) == kind,
{
}

/// Without a value in the query string, a header that writes a value is
/// heard before the fallback.
pub proof fn lemma_header_overrides(
    header: Seq<char>,
    fallback: u64,
    fallback_kind: SlumberKind,
)
    ensures
        parsed_millis(header) matches Some(h) ==> resolved_millis(None, Some(header), fallback)
            == h,
        parsed_kind(header) matches Some(k) ==> resolved_kind(None, Some(header), fallback_kind)
            == k,
{
}

/// Without a value from the query string or the header, the fallback holds.
pub proof fn lemma_fallback_holds(fallback: u64, fallback_kind: SlumberKind)
    ensures
        resolved_millis(None, None, fallback) == fallback,
        resolved_kind(None, None, fallback_kind) == fallback_kind,
{
}

/// A header that does not read as a value counts as absent, whatever the
/// query string and the fallback are.
pub proof fn lemma_malformed_header_is_absent(
    query: Option<u64>,
    query_kind: Option<SlumberKind>,
    header: Seq<char>,
    fallback: u64,
    fallback_kind: SlumberKind,
)
    ensures
        parsed_millis(header) is None ==> resolved_millis(query, Some(header), fallback)
            == resolved_millis(query, None, fallback),
        parsed_kind(header) is None ==> resolved_kind(query_kind, Some(header), fallback_kind)
            == resolved_kind(query_kind, None, fallback_kind),
{
}

/// A query value that does not read as a value counts as absent.
pub proof fn lemma_malformed_query_is_absent(raw: Seq<char>)
    ensures
        parsed_millis(raw) is None ==> parsed_millis_of(Some(raw)) == parsed_millis_of(None),
        parsed_kind(raw) is None ==> parsed_kind_of(Some(raw)) == parsed_kind_of(None),
{
}

/// The arithmetic that keeps a request inside the operator's bounds.
pub struct SleepBounds;

impl SleepBounds {
    /// A requested length held to `min` from below and then to `max` from
    /// above.
    pub open spec fn spec_duration(req: nat, min: nat, max: nat) -> nat {
        least(greatest(req, min), max)
    }

    /// The higher of the two lower constraints.
    pub open spec fn lower(req_min: nat, config_min: nat) -> nat {
        greatest(req_min, config_min)
    }

    /// The lower of the two upper constraints.
    pub open spec fn upper(req_max: nat, config_max: nat) -> nat {
        least(req_max, config_max)
    }

    /// The lower end of the window a random delay is drawn from.
    pub open spec fn spec_min(req_min: nat, req_max: nat, config_min: nat, config_max: nat) -> nat {
        least(Self::lower(req_min, config_min), Self::upper(req_max, config_max))
    }

    /// The upper end of the window a random delay is drawn from.
    pub open spec fn spec_max(req_min: nat, req_max: nat, config_min: nat, config_max: nat) -> nat {
        greatest(Self::lower(req_min, config_min), Self::upper(req_max, config_max))
    }

    /// The requested delay, no shorter than `min` and then no longer than
    /// `max`.
    pub fn duration(req: &Delay, min: &Delay, max: &Delay) -> (r: Delay)
        ensures
            r@ == Self::spec_duration(req@, min@, max@),
            r.wf(),
    {
        req.max(min).min(max)
    }

    /// The upper end of the window for a random delay: the larger of the
    /// highest lower constraint and the lowest upper constraint.
    pub fn max(req_min: &Delay, req_max: &Delay, config_min: &Delay, config_max: &Delay) -> (r:
        Delay)
        ensures
            r@ == Self::spec_max(req_min@, req_max@, config_min@, config_max@),
            r.wf(),
    {
        let lower: Delay = req_min.max(config_min);
        let upper: Delay = req_max.min(config_max);
        lower.max(&upper)
    }

    /// The lower end of the window for a random delay: the smaller of the
    /// highest lower constraint and the lowest upper constraint.
    pub fn min(req_min: &Delay, req_max: &Delay, config_min: &Delay, config_max: &Delay) -> (r:
        Delay)
        ensures
            r@ == Self::spec_min(req_min@, req_max@, config_min@, config_max@),
            r.wf(),
    {
        let lower: Delay = req_min.max(config_min);
        let upper: Delay = req_max.min(config_max);
        lower.min(&upper)
    }

    /// A delay between `min` and `max`, both included. Where the two are
    /// the same there is nothing to draw, and the delay is that one.
    fn draw(min: &Delay, max: &Delay) -> (r: Delay)
        requires
            min@ <= max@,
        ensures
            min@ <= r@ <= max@,
            min@ == max@ ==> r == *min,
            min@ < max@ ==> r@ < max@,
            r.wf(),
    {
        if min.lt(max) {
            Delay::random_between(min, max)
        } else {
            proof {
                use_type_invariant(min);
            }
            *min
        }
    }

    /// A held delay lies within bounds that are in order.
    pub proof fn lemma_duration_within(req: nat, min: nat, max: nat)
        requires
            min <= max,
        ensures
            min <= Self::spec_duration(req, min, max) <= max,
            min <= req <= max ==> Self::spec_duration(req, min, max) == req,
            req < min ==> Self::spec_duration(req, min, max) == min,
            req > max ==> Self::spec_duration(req, min, max) == max,
    {
    }

    /// The window is in order whatever is asked for.
    pub proof fn lemma_window_ordered(req_min: nat, req_max: nat, config_min: nat, config_max: nat)
        ensures
            Self::spec_min(req_min, req_max, config_min, config_max) <= Self::spec_max(
                req_min,
                req_max,
                config_min,
                config_max,
            ),
    {
    }

    /// The window lies within the operator's bounds where the request
    /// reaches into them: where it asks for a lower end that is not above
    /// the operator's maximum and an upper end that is not below the
    /// operator's minimum.
    pub proof fn lemma_window_within(req_min: nat, req_max: nat, config_min: nat, config_max: nat)
        requires
            config_min <= config_max,
            req_min <= config_max,
            config_min <= req_max,
        ensures
            config_min <= Self::spec_min(req_min, req_max, config_min, config_max),
            Self::spec_max(req_min, req_max, config_min, config_max) <= config_max,
    {
    }

    /// A request whose window is in order and reaches into the operator's
    /// bounds gets the part of its window that lies within them.
    pub proof fn lemma_window_narrows(req_min: nat, req_max: nat, config_min: nat, config_max: nat)
        requires
            config_min <= config_max,
            req_min <= req_max,
            req_min <= config_max,
            config_min <= req_max,
        ensures
            Self::spec_min(req_min, req_max, config_min, config_max) == greatest(
                req_min,
                config_min,
            ),
            Self::spec_max(req_min, req_max, config_min, config_max) == least(req_max, config_max),
    {
    }
}

/// What was resolved for one request.
#[derive(Clone, Copy, Debug, PartialEq, Eq, Structural)]
pub struct SlumberConfig {
    /// The identifier of the request.
    pub id: u128,
    /// How the delay was chosen.
    pub kind: SlumberKind,
    /// The lower bound: the operator's for a fixed delay, the lower end of
    /// the window for a random one.
    pub min: Delay,
    /// The upper bound: the operator's for a fixed delay, the upper end of
    /// the window for a random one.
    pub max: Delay,
    /// The delay to wait for.
    pub duration: Delay,
}

impl SlumberConfig {
    /// The delay lies within the bounds.
    pub open spec fn wf(self) -> bool {
        self.min@ <= self.duration@ <= self.max@
    }

    /// The fixed resolution of the request `id` for `req` under `config`:
    /// the operator's bounds, and the requested delay held to them.
    pub fn fixed_with(id: u128, req: &Delay, config: &CliArgs) -> (r: Self)
        ensures
            r.id == id,
            fixed_from(r, req@, *config),
            r.wf(),
    {
        let min: Delay = config.min_sleep();
        let max: Delay = config.max_sleep();
        SlumberConfig {
            id,
            kind: SlumberKind::Fixed,
            min,
            max,
            duration: SleepBounds::duration(req, &min, &max),
        }
    }

    /// Generate a fixed-time slumber: the requested delay, held to the
    /// operator's bounds. The identifier is a fresh random one.
    pub fn fixed(req: &Delay, config: &CliArgs) -> (r: Self)
        ensures
            fixed_from(r, req@, *config),
            r.wf(),
            is_random_id(r.id),
    {
        Self::fixed_with(fresh_request_id(), req, config)
    }

    /// The random resolution of the request `id` for the window from
    /// `req_min` to `req_max` under `config`, with `drawn` as the delay that
    /// was drawn from the window in force.
    pub fn random_with(
        id: u128,
        drawn: &Delay,
        req_min: &Delay,
        req_max: &Delay,
        config: &CliArgs,
    ) -> (r: Self)
        requires
            SleepBounds::spec_min(
                req_min@,
                req_max@,
                nanos_of_millis(config.effective_min()),
                nanos_of_millis(config.effective_max()),
            ) <= drawn@,
            drawn@ <= SleepBounds::spec_max(
                req_min@,
                req_max@,
                nanos_of_millis(config.effective_min()),
                nanos_of_millis(config.effective_max()),
            ),
        ensures
            r.id == id,
            r.duration == *drawn,
            random_from(r, req_min@, req_max@, *config),
            r.wf(),
    {
        let cfg_min: Delay = config.min_sleep();
        let cfg_max: Delay = config.max_sleep();
        let min: Delay = SleepBounds::min(req_min, req_max, &cfg_min, &cfg_max);
        let max: Delay = SleepBounds::max(req_min, req_max, &cfg_min, &cfg_max);
        proof {
            use_type_invariant(drawn);
            if min@ == max@ {
                Delay::lemma_view_injective(*drawn, min);
            }
        }
        SlumberConfig { id, kind: SlumberKind::Random, min, max, duration: *drawn }
    }

    /// Generate a random slumber using the bounds specified: its window
    /// runs between the higher of the two lower constraints and the lower of
    /// the two upper constraints, whichever way round they lie, and its
    /// delay is drawn from the window. Where the window is a single point,
    /// the delay is that point. The identifier is a fresh random one.
    pub fn random(req_min: &Delay, req_max: &Delay, config: &CliArgs) -> (r: Self)
        ensures
            random_from(r, req_min@, req_max@, *config),
            r.wf(),
            r.min@ < r.max@ ==> r.duration@ < r.max@,
            is_random_id(r.id),
    {
        let cfg_min: Delay = config.min_sleep();
        let cfg_max: Delay = config.max_sleep();
        let min: Delay = SleepBounds::min(req_min, req_max, &cfg_min, &cfg_max);
        let max: Delay = SleepBounds::max(req_min, req_max, &cfg_min, &cfg_max);
        let drawn: Delay = SleepBounds::draw(&min, &max);
        Self::random_with(fresh_request_id(), &drawn, req_min, req_max, config)
    }

    /// What the body of the reply reports for this resolution: the bounds
    /// for a random delay only.
    pub open spec fn spec_payload(self) -> response::SlumberDurationView {
        response::SlumberDurationView {
            kind: self.kind,
            duration_millis: self.duration.spec_as_millis(),
            duration_pretty: self.duration.spec_pretty(),
            max_pretty: if self.kind == SlumberKind::Random {
                Some(self.max.spec_pretty())
            } else {
                None
            },
            max_millis: if self.kind == SlumberKind::Random {
                Some(self.max.spec_as_millis())
            } else {
                None
            },
            min_millis: if self.kind == SlumberKind::Random {
                Some(self.min.spec_as_millis())
            } else {
                None
            },
            min_pretty: if self.kind == SlumberKind::Random {
                Some(self.min.spec_pretty())
            } else {
                None
            },
        }
    }

    /// The body of the reply that reports this resolution.
    pub fn payload(&self) -> (r: SlumberResponse)
        ensures
            r.request_id == self.id,
            r.duration@ == self.spec_payload(),
    {
        match self.kind {
            SlumberKind::Fixed => SlumberResponse::builder(self.id, self.kind, &self.duration).build(),
            SlumberKind::Random => SlumberResponse::builder(self.id, self.kind, &self.duration).min(
                &self.min,
            ).max(&self.max).build(),
        }
    }

    /// The headers of the reply that reports this resolution, each with its
    /// name and its value, in the order they are sent: the identifier, the
    /// delay in words and in milliseconds and the kind; for a random delay
    /// also the two ends of the window, each in words and in milliseconds.
    pub open spec fn spec_headers(self) -> Seq<(Seq<char>, Seq<char>)> {
        let shared = seq![
            (REQUEST_ID_HEADER@, request_id_text(self.id)),
            (SLEEP_TIME_HEADER@, self.duration.spec_pretty()),
            (SLEEP_TIME_MS_HEADER@, decimal_digits(self.duration.spec_as_millis())),
            (SLEEP_KIND_HEADER@, self.kind.spec_name()),
        ];
        match self.kind {
            SlumberKind::Fixed => shared,
            SlumberKind::Random => shared + seq![
                (MINIMUM_SLEEP_TIME_HEADER@, self.min.spec_pretty()),
                (MINIMUM_SLEEP_TIME_MS_HEADER@, decimal_digits(self.min.spec_as_millis())),
                (MAXIMUM_SLEEP_TIME_HEADER@, self.max.spec_pretty()),
                (MAXIMUM_SLEEP_TIME_MS_HEADER@, decimal_digits(self.max.spec_as_millis())),
            ],
        }
    }

    /// The headers of the reply that reports this resolution.
    pub fn headers(&self) -> (r: Vec<(String, String)>)
        ensures
            header_views(r@) == self.spec_headers(),
    {
        let mut list: Vec<(String, String)> = Vec::new();
        assert(header_views(list@) =~= Seq::empty());
        push_header(&mut list, REQUEST_ID_HEADER, id_text(self.id));
        push_header(&mut list, SLEEP_TIME_HEADER, self.duration.pretty());
        push_header(&mut list, SLEEP_TIME_MS_HEADER, decimal_text(self.duration.as_millis()));
        push_header(&mut list, SLEEP_KIND_HEADER, self.kind.name().to_owned());
        match self.kind {
            SlumberKind::Fixed => {},
            SlumberKind::Random => {
                push_header(&mut list, MINIMUM_SLEEP_TIME_HEADER, self.min.pretty());
                push_header(
                    &mut list,
                    MINIMUM_SLEEP_TIME_MS_HEADER,
                    decimal_text(self.min.as_millis()),
                );
                push_header(&mut list, MAXIMUM_SLEEP_TIME_HEADER, self.max.pretty());
                push_header(
                    &mut list,
                    MAXIMUM_SLEEP_TIME_MS_HEADER,
                    decimal_text(self.max.as_millis()),
                );
            },
        }
        assert(header_views(list@) =~= self.spec_headers());
        list
    }
}

/// A list of headers with the characters of each name and value.
pub open spec fn header_views(headers: Seq<(String, String)>) -> Seq<(Seq<char>, Seq<char>)> {
    Seq::new(headers.len(), |i: int| (headers[i].0@, headers[i].1@))
}

/// Adds one header to the end of a list.
fn push_header(list: &mut Vec<(String, String)>, name: &str, value: String)
    ensures
        header_views(final(list)@) == header_views(old(list)@).push((name@, value@)),
{
    list.push((name.to_owned(), value));
    assert(header_views(list@) =~= header_views(old(list)@).push((name@, value@)));
}

/// The default handler for non-specific path-based requests: the kind in
/// force decides whether the request gets a random delay from the window in
/// force, or the delay in force, held to the operator's bounds.
pub fn default(headers: &HeaderMap, config: &CliArgs, query: &SleepQueryParams) -> (r:
    SlumberConfig)
    ensures
        r.kind == resolved_kind(
            query.kind,
            header_text(*headers, SLEEP_KIND_HEADER@),
            default_kind(*config),
        ),
        r.kind == SlumberKind::Fixed ==> fixed_from(
            r,
            nanos_of_millis(
                resolved_millis(
                    query.duration,
                    header_text(*headers, SLEEP_TIME_MS_HEADER@),
                    config.sleep_ms,
                ),
            ),
            *config,
        ),
        r.kind == SlumberKind::Random ==> random_from(
            r,
            nanos_of_millis(
                resolved_millis(
                    query.min,
                    header_text(*headers, MINIMUM_SLEEP_TIME_MS_HEADER@),
                    config.min_sleep_ms,
                ),
            ),
            nanos_of_millis(
                resolved_millis(
                    query.max,
                    header_text(*headers, MAXIMUM_SLEEP_TIME_MS_HEADER@),
                    config.max_sleep_ms,
                ),
            ),
            *config,
        ),
        r.wf(),
        is_random_id(r.id),
{
    let kind: SlumberKind = extract_sleep_kind(headers, query, config);
    let min: Delay = extract_sleep_min_time(headers, query, config);
    let max: Delay = extract_sleep_max_time(headers, query, config);
    match kind {
        SlumberKind::Random => SlumberConfig::random(&min, &max, config),
        SlumberKind::Fixed => SlumberConfig::fixed(
            &extract_sleep_time(headers, query, config),
            config,
        ),
    }
}

/// Whether `r` is the fixed resolution of a request for `req` under
/// `config`: the operator's bounds, and the request held to them.
pub open spec fn fixed_from(r: SlumberConfig, req: nat, config: CliArgs) -> bool {
    &&& r.kind == SlumberKind::Fixed
    &&& r.min@ == nanos_of_millis(config.effective_min())
    &&& r.max@ == nanos_of_millis(config.effective_max())
    &&& r.duration@ == SleepBounds::spec_duration(req, r.min@, r.max@)
}

/// Whether `r` is a random resolution of a request for the window from
/// `req_min` to `req_max` under `config`: the window between the higher of
/// the two lower constraints and the lower of the two upper constraints,
/// put in order, and a delay within it, which is the only one there is
/// where the window is a single point.
pub open spec fn random_from(r: SlumberConfig, req_min: nat, req_max: nat, config: CliArgs)
    -> bool {
    &&& r.kind == SlumberKind::Random
    &&& r.min@ == SleepBounds::spec_min(
        req_min,
        req_max,
        nanos_of_millis(config.effective_min()),
        nanos_of_millis(config.effective_max()),
    )
    &&& r.max@ == SleepBounds::spec_max(
        req_min,
        req_max,
        nanos_of_millis(config.effective_min()),
        nanos_of_millis(config.effective_max()),
    )
    &&& r.min@ <= r.duration@ <= r.max@
    &&& r.min@ == r.max@ ==> r.duration == r.min
}

/// Handler for returning usage information at runtime: the status of the
/// reply, 403 where the operator has switched usage off and 200 where the
/// usage text is sent.
pub fn help(config: &CliArgs) -> (status: u16)
    ensures
        status == if config.disable_help {
            403u16
        } else {
            200u16
        },
{
    if config.disable_help {
        403
    } else {
        200
    }
}

} // verus!
