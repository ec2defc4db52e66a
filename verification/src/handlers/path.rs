//! Requests whose path says what is asked for.

use vstd::prelude::*;
use actix_web::http::HeaderMap;
use crate::config::CliArgs;
use crate::handlers::SleepQueryParams;
use crate::handlers::SlumberConfig;
use crate::handlers::extract_sleep_max_time;
use crate::handlers::extract_sleep_min_time;
use crate::handlers::fixed_from;
use crate::handlers::header_text;
use crate::handlers::random_from;
use crate::handlers::resolved_millis;
use crate::handlers::MAXIMUM_SLEEP_TIME_MS_HEADER;
use crate::handlers::MINIMUM_SLEEP_TIME_MS_HEADER;
use crate::ident::is_random_id;
use crate::time::Delay;
use crate::time::nanos_of_millis;

verus! {

/// Sleep for a specific, path-specified amount of milliseconds.
///
/// The delay is held to the operator's bounds, so that no request can ask
/// for more than the operator allows.
pub fn specific(config: &CliArgs, millis: u64) -> (r: SlumberConfig)
    ensures
        fixed_from(r, nanos_of_millis(millis), *config),
        r.wf(),
        is_random_id(r.id),
{
    SlumberConfig::fixed(&Delay::from_millis(millis), config)
}

/// Sleep for a random amount of milliseconds within the window in force:
/// the one the request asks for in its query string or headers, held to the
/// operator's bounds where it reaches into them.
pub fn random(headers: &HeaderMap, config: &CliArgs, query: &SleepQueryParams) -> (r:
    SlumberConfig)
    ensures
        random_from(
            r,
            nanos_of_millis(
                resolved_millis(
                    query.min,
                    header_text(*headers, MINIMUM_SLEEP_TIME_MS_HEADER@),
                    config.min_sleep_ms,
                ),
            ),
            nanos_of_millis(
                resolved_millis(
                    query.max,
                    header_text(*headers, MAXIMUM_SLEEP_TIME_MS_HEADER@),
                    config.max_sleep_ms,
                ),
            ),
            *config,
        ),
        r.wf(),
        is_random_id(r.id),
{
    let req_min: Delay = extract_sleep_min_time(headers, query, config);
    let req_max: Delay = extract_sleep_max_time(headers, query, config);
    SlumberConfig::random(&req_min, &req_max, config)
}

/// Sleep for a random amount of milliseconds within the range specified in
/// the path. The range is held to the operator's bounds where it reaches
/// into them; a range that lies wholly above or below the bounds gives the
/// window between its near end and the bound it faces.
pub fn random_range(config: &CliArgs, min: u64, max: u64) -> (r: SlumberConfig)
    ensures
        random_from(r, nanos_of_millis(min), nanos_of_millis(max), *config),
        r.wf(),
        is_random_id(r.id),
{
    SlumberConfig::random(&Delay::from_millis(min), &Delay::from_millis(max), config)
}

} // verus!
