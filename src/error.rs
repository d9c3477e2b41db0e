//! Failures of the forecast pipeline.
use vstd::prelude::*;

verus! {

/// Why a step of the pipeline did not produce its value.
#[derive(Clone, Copy, Debug, PartialEq, Eq, Structural)]
pub enum WeatherError {
    /// The transport failed to carry a request or its response.
    NetworkError,
    /// A response body did not have the expected shape.
    DecodeError,
    /// A forecast period lacked a field that a bundle requires.
    AggregationError,
}

} // verus!
