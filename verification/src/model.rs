//! The data model: the rate record the upstream returns on success, the
//! error taxonomy, and the raw observation of one HTTP exchange.

use vstd::prelude::*;

verus! {

/// One exchange-rate quote, built only from a well-formed upstream response.
///
/// The upstream reports the rate as a JSON number. The record carries that
/// number as its decimal text, exactly as the upstream's JSON serializes it,
/// so no precision is lost and no numeric conversion happens in the library.
#[derive(Clone, Debug, PartialEq, Eq)]
pub struct ExchangeRate {
    /// Timestamp string from the upstream, passed through verbatim.
    pub observed_at: String,
    /// Identifier of the cryptocurrency whose price was asked for.
    pub base_asset: String,
    /// Identifier of the fiat currency the price is expressed in.
    pub quote_asset: String,
    /// Decimal text of the numeric rate, verbatim from the upstream's JSON.
    pub rate: String,
}

/// Why a fetch failed. Deliberately coarse: transport failures, body-read
/// failures and JSON shape mismatches are all one kind, distinguished only
/// from a response that arrived with a non-success status.
#[derive(Clone, Copy, Debug, PartialEq, Eq, Structural)]
pub enum FetchError {
    /// A response arrived with a non-2xx status; carries that status code.
    UpstreamStatus(u16),
    /// The request could not be sent, the body could not be read, or the
    /// body did not hold a well-formed rate object.
    FetchFailure,
}

/// What one attempted HTTP exchange looked like from the outside: either the
/// request never completed, or a status arrived, possibly with body text.
#[derive(Clone, Debug, PartialEq, Eq)]
pub enum RawResponse {
    /// The GET itself failed: DNS, connection refused, timeout, TLS.
    TransportFailed,
    /// A response arrived. `body` is its text when it was read; `None` when
    /// reading failed or the body was never read (it is never inspected for
    /// a non-success status).
    Arrived { status: u16, body: Option<String> },
}

} // verus!
