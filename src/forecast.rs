//! Forecast documents, point metadata, and their reduction into bundles.
use vstd::prelude::*;
use crate::error::WeatherError;
use crate::geo::City;

verus! {

/// serde_json's `Value`, declared so that parts of a response that the
/// pipeline does not interpret can be carried through unchanged.
#[verifier::external_type_specification]
#[verifier::external_body]
pub struct ExValue(serde_json::Value);

/// An instant: whole seconds since the Unix epoch and the nanoseconds past them.
#[derive(Clone, Copy, Debug, PartialEq, Eq, Structural)]
pub struct Timestamp {
    pub seconds: i64,
    pub nanos: u32,
}

/// Result of a point-metadata lookup.
#[derive(Debug)]
pub struct PointInfo {
    pub id: String,
    pub properties: PointProps,
}

/// Resource links of a point.
#[derive(Debug)]
pub struct PointProps {
    pub forecast_office: String,
    pub forecast: String,
    pub forecast_hourly: String,
    pub forecast_grid_data: String,
    pub observation_stations: String,
    pub relative_location: RelativeLocation,
    pub forecast_zone: String,
    pub county: String,
    pub fire_weather_zone: String,
    pub time_zone: String,
    pub radar_station: String,
}

/// The nearest named place to a point.
#[derive(Debug)]
pub struct RelativeLocation {
    pub geometry: serde_json::Value,
    pub properties: RelativeProps,
}

/// Name, state and offset of the nearest named place.
#[derive(Debug)]
pub struct RelativeProps {
    pub city: String,
    pub state: String,
    pub distance: serde_json::Value,
    pub bearing: serde_json::Value,
}

/// A forecast document.
#[derive(Debug)]
pub struct Forecast {
    pub properties: ForecastProps,
}

/// Body of a forecast document; `periods` is in chronological order.
#[derive(Debug)]
pub struct ForecastProps {
    pub updated: Timestamp,
    pub units: String,
    pub generated_at: Timestamp,
    pub elevation: serde_json::Value,
    pub periods: Vec<ForecastPeriod>,
}

/// One time window of a forecast.
#[derive(Debug)]
pub struct ForecastPeriod {
    pub number: u16,
    pub name: String,
    pub start_time: Timestamp,
    pub end_time: Timestamp,
    pub is_day_time: bool,
    pub temperature: i8,
    pub temperature_unit: String,
    pub wind_speed: Option<String>,
    pub wind_direction: Option<String>,
    pub icon: String,
    pub short_forecast: String,
    pub detailed_forecast: String,
}

/// The reduced, storable form of a forecast period.
#[derive(Debug)]
pub struct ForecastBundle {
    pub start: Timestamp,
    pub end: Timestamp,
    pub temperature: i8,
    pub wind_speed: String,
    pub wind_direction: String,
    pub short_forecast: String,
}

/// A reduced forecast tied to a city.
#[derive(Debug)]
pub struct WeatherBundle {
    pub location: City,
    pub forecast: Vec<ForecastBundle>,
    pub updated: Timestamp,
}

/// A period can be bundled when both of its wind fields are present.
pub open spec fn has_wind(p: ForecastPeriod) -> bool {
    p.wind_speed is Some && p.wind_direction is Some
}

/// The bundle of a period that has wind data.
pub open spec fn bundle_of(p: ForecastPeriod) -> ForecastBundle
    recommends
        has_wind(p),
{
    ForecastBundle {
        start: p.start_time,
        end: p.end_time,
        temperature: p.temperature,
        wind_speed: p.wind_speed->Some_0,
        wind_direction: p.wind_direction->Some_0,
        short_forecast: p.short_forecast,
    }
}

/// Every period of the sequence has wind data.
pub open spec fn all_have_wind(periods: Seq<ForecastPeriod>) -> bool {
    forall|i: int| 0 <= i < periods.len() ==> #[trigger] has_wind(periods[i])
}

/// The bundles of a sequence of periods, in the same order.
pub open spec fn bundles_of(periods: Seq<ForecastPeriod>) -> Seq<ForecastBundle> {
    periods.map_values(|p: ForecastPeriod| bundle_of(p))
}

/// Reducing periods that all have wind data gives exactly one bundle per
/// period, in the same order, with times, temperature and summary copied
/// verbatim.
pub proof fn lemma_bundles_keep_periods(periods: Seq<ForecastPeriod>)
    requires
        all_have_wind(periods),
    ensures
        bundles_of(periods).len() == periods.len(),
        forall|i: int| 0 <= i < periods.len() ==> {
            let b = #[trigger] bundles_of(periods)[i];
            &&& b.start == periods[i].start_time
            &&& b.end == periods[i].end_time
            &&& b.temperature == periods[i].temperature
            &&& b.short_forecast == periods[i].short_forecast
            &&& Some(b.wind_speed) == periods[i].wind_speed
            &&& Some(b.wind_direction) == periods[i].wind_direction
        },
{
    assert forall|i: int| 0 <= i < periods.len() implies has_wind(periods[i]) by {}
}

impl ForecastBundle {
    /// Reduces one period; a period without both wind fields is refused.
    pub fn from_period(p: &ForecastPeriod) -> (r: Result<ForecastBundle, WeatherError>)
        ensures
            r is Ok <==> has_wind(*p),
            r is Ok ==> r->Ok_0 == bundle_of(*p),
            r is Err ==> r->Err_0 == WeatherError::AggregationError,
    {
        match (&p.wind_speed, &p.wind_direction) {
            (Some(speed), Some(direction)) => Ok(ForecastBundle {
                start: p.start_time,
                end: p.end_time,
                temperature: p.temperature,
                wind_speed: speed.clone(),
                wind_direction: direction.clone(),
                short_forecast: p.short_forecast.clone(),
            }),
            _ => Err(WeatherError::AggregationError),
        }
    }
}

impl WeatherBundle {
    /// Reduces a forecast against a city: one bundle per period, in order.
    /// The first period without wind data makes the whole reduction fail.
    pub fn new(loc: City, fcb: Forecast) -> (r: Result<WeatherBundle, WeatherError>)
        ensures
            r is Ok <==> all_have_wind(fcb.properties.periods@),
            r is Ok ==> r->Ok_0.location == loc,
            r is Ok ==> r->Ok_0.forecast@ == bundles_of(fcb.properties.periods@),
            r is Ok ==> r->Ok_0.updated == fcb.properties.updated,
            r is Err ==> r->Err_0 == WeatherError::AggregationError,
    {
        let periods = &fcb.properties.periods;
        let mut out: Vec<ForecastBundle> = Vec::new();
        let mut i: usize = 0;
        while i < periods.len()
            invariant
                0 <= i <= periods@.len(),
                periods@ == fcb.properties.periods@,
                all_have_wind(periods@.subrange(0, i as int)),
                out@ == bundles_of(periods@.subrange(0, i as int)),
            decreases periods@.len() - i,
        {
            match ForecastBundle::from_period(&periods[i]) {
                Ok(b) => {
                    out.push(b);
                },
                Err(e) => {
                    assert(!has_wind(periods@[i as int]));
                    return Err(e);
                },
            }
            i = i + 1;
            assert(periods@.subrange(0, i as int) =~= periods@.subrange(0, i - 1 as int).push(periods@[i - 1 as int]));
            assert(out@ =~= bundles_of(periods@.subrange(0, i as int)));
        }
        assert(periods@.subrange(0, i as int) =~= periods@);
        Ok(WeatherBundle { location: loc, forecast: out, updated: fcb.properties.updated })
    }
}

} // verus!
