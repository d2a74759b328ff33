//! Fetching one cryptocurrency exchange rate from the Coin API REST
//! endpoint: building the request, classifying the HTTP outcome, validating
//! the JSON body's shape, and rendering the result for display.
//!
//! The transport itself (argument parsing, the GET, printing) lives outside
//! the library; everything the tool decides or computes is here, verified.

pub mod fetch;
pub mod format;
pub mod json;
pub mod model;
pub mod request;
