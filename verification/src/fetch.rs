//! The decision core of a fetch: classify the HTTP status, validate the
//! body's shape, and fold every outcome into a rate record or an error.
//!
//! The transport itself lives outside the library; it hands over a
//! `RawResponse` and this module decides everything else.

use vstd::prelude::*;
use crate::json::{string_field, number_field, lookup_string_field, lookup_number_field};
use crate::model::{ExchangeRate, FetchError, RawResponse};

verus! {

/// A status counts as success exactly when it lies in the 2xx range.
pub open spec fn spec_status_success(status: u16) -> bool {
    200 <= status < 300
}

/// The body holds the expected rate object: three string fields and one
/// numeric field under their fixed keys.
pub open spec fn body_has_shape(body: Seq<char>) -> bool {
    &&& string_field(body, "time"@) is Some
    &&& string_field(body, "asset_id_base"@) is Some
    &&& string_field(body, "asset_id_quote"@) is Some
    &&& number_field(body, "rate"@) is Some
}

/// The record's four fields are exactly the four fields of the body's rate
/// object, untransformed.
pub open spec fn record_matches_body(body: Seq<char>, e: ExchangeRate) -> bool {
    &&& string_field(body, "time"@) == Some(e.observed_at@)
    &&& string_field(body, "asset_id_base"@) == Some(e.base_asset@)
    &&& string_field(body, "asset_id_quote"@) == Some(e.quote_asset@)
    &&& number_field(body, "rate"@) == Some(e.rate@)
}

/// What parsing a success body must yield: the record on a well-shaped body,
/// the catch-all failure on any other body, and nothing else.
pub open spec fn parse_outcome(body: Seq<char>, r: Result<ExchangeRate, FetchError>) -> bool {
    if body_has_shape(body) {
        r matches Ok(e) && record_matches_body(body, e)
    } else {
        r == Err::<ExchangeRate, FetchError>(FetchError::FetchFailure)
    }
}

/// True exactly when `status` is a 2xx success status.
pub fn status_is_success(status: u16) -> (r: bool)
    ensures
        r == spec_status_success(status),
{
    200 <= status && status < 300
}

/// Parse the text of a 2xx response into a rate record.
///
/// Succeeds exactly when the body is a JSON object carrying string fields
/// `time`, `asset_id_base` and `asset_id_quote` and a numeric field `rate`;
/// the record then repeats those four values verbatim. Every other body is
/// the one coarse `FetchFailure`.
pub fn parse_exchange_rate(body: &str) -> (r: Result<ExchangeRate, FetchError>)
    ensures
        parse_outcome(body@, r),
{
    let observed_at = lookup_string_field(body, "time");
    let base_asset = lookup_string_field(body, "asset_id_base");
    let quote_asset = lookup_string_field(body, "asset_id_quote");
    let rate = lookup_number_field(body, "rate");
    match (observed_at, base_asset, quote_asset, rate) {
        (Some(observed_at), Some(base_asset), Some(quote_asset), Some(rate)) => Ok(
            ExchangeRate { observed_at, base_asset, quote_asset, rate },
        ),
        _ => Err(FetchError::FetchFailure),
    }
}

/// What a whole fetch must yield for a given observation: the catch-all
/// failure when the request never completed or a success body could not be
/// read, the status error (body ignored) on a non-2xx status, and the parse
/// outcome on a 2xx body.
pub open spec fn fetch_outcome(resp: RawResponse, r: Result<ExchangeRate, FetchError>) -> bool {
    match resp {
        RawResponse::TransportFailed => r == Err::<ExchangeRate, FetchError>(
            FetchError::FetchFailure,
        ),
        RawResponse::Arrived { status, body } => if !spec_status_success(status) {
            r == Err::<ExchangeRate, FetchError>(FetchError::UpstreamStatus(status))
        } else {
            match body {
                None => r == Err::<ExchangeRate, FetchError>(FetchError::FetchFailure),
                Some(b) => parse_outcome(b@, r),
            }
        },
    }
}

/// Turn the raw observation of one HTTP exchange into the fetch's result.
///
/// A failed request is the coarse `FetchFailure`; a non-2xx status is
/// `UpstreamStatus` with that exact code, whatever the body held; a 2xx
/// response stands or falls with its body's shape alone.
pub fn evaluate_response(resp: RawResponse) -> (r: Result<ExchangeRate, FetchError>)
    ensures
        fetch_outcome(resp, r),
{
    match resp {
        RawResponse::TransportFailed => Err(FetchError::FetchFailure),
        RawResponse::Arrived { status, body } => {
            if !status_is_success(status) {
                Err(FetchError::UpstreamStatus(status))
            } else {
                match body {
                    None => Err(FetchError::FetchFailure),
                    Some(b) => parse_exchange_rate(b.as_str()),
                }
            }
        },
    }
}

/// Two observations carry the same data: same variant, same status, and
/// bodies with the same text.
pub open spec fn same_observation(a: RawResponse, b: RawResponse) -> bool {
    match (a, b) {
        (RawResponse::TransportFailed, RawResponse::TransportFailed) => true,
        (
            RawResponse::Arrived { status: sa, body: ba },
            RawResponse::Arrived { status: sb, body: bb },
        ) => sa == sb && match (ba, bb) {
            (None, None) => true,
            (Some(ta), Some(tb)) => ta@ == tb@,
            _ => false,
        },
        _ => false,
    }
}

/// Two rate records carry the same four field values.
pub open spec fn same_record(a: ExchangeRate, b: ExchangeRate) -> bool {
    &&& a.observed_at@ == b.observed_at@
    &&& a.base_asset@ == b.base_asset@
    &&& a.quote_asset@ == b.quote_asset@
    &&& a.rate@ == b.rate@
}

/// Two fetch results carry the same data: equal records, or equal errors.
pub open spec fn same_outcome(
    a: Result<ExchangeRate, FetchError>,
    b: Result<ExchangeRate, FetchError>,
) -> bool {
    match (a, b) {
        (Ok(ea), Ok(eb)) => same_record(ea, eb),
        (Err(fa), Err(fb)) => fa == fb,
        _ => false,
    }
}

/// Fetching is idempotent: the outcome is a function of the observation
/// alone, so two evaluations of observations that carry the same data yield
/// results that carry the same data. There is no hidden state.
pub proof fn lemma_fetch_deterministic(
    a: RawResponse,
    b: RawResponse,
    ra: Result<ExchangeRate, FetchError>,
    rb: Result<ExchangeRate, FetchError>,
)
    requires
        same_observation(a, b),
        fetch_outcome(a, ra),
        fetch_outcome(b, rb),
    ensures
        same_outcome(ra, rb),
{
}

} // verus!
