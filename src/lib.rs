//! Client-side logic for a geospatial weather service: coordinates, the
//! requests they resolve to, and the reduction of forecasts into bundles.
pub mod error;
pub mod forecast;
pub mod geo;
pub mod report;
pub mod text;
