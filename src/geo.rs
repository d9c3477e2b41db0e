//! Geographic points and catalog cities.
//!
//! Coordinates are held in micro-degrees: `48853410` stands for 48.85341°.
use vstd::prelude::*;
use crate::error::WeatherError;
use crate::text::{coordinate_text, push_coordinate};

verus! {

/// A latitude/longitude pair, each in micro-degrees. No range is enforced.
#[derive(Clone, Copy, Debug, Default, PartialEq, Eq, Structural)]
pub struct Point {
    pub lat: i64,
    pub lng: i64,
}

impl Point {
    /// A point at the given latitude and longitude, in micro-degrees.
    pub fn new(lat: i64, lng: i64) -> (r: Point)
        ensures
            r.lat == lat,
            r.lng == lng,
    {
        Point { lat: lat, lng: lng }
    }
}

/// A named location from a city dataset.
#[derive(Debug)]
pub struct City {
    pub city: String,
    pub state_id: String,
    pub lat: i64,
    pub lng: i64,
}

impl City {
    /// The point at this city's coordinates; the conversion never fails.
    pub fn into_point(&self) -> (r: Result<Point, WeatherError>)
        ensures
            r == Ok::<Point, WeatherError>(Point { lat: self.lat, lng: self.lng }),
    {
        Ok(Point { lat: self.lat, lng: self.lng })
    }
}

impl From<City> for Point {
    fn from(city: City) -> (r: Point)
        ensures
            r == (Point { lat: city.lat, lng: city.lng }),
    {
        Point::new(city.lat, city.lng)
    }
}

impl vstd::std_specs::convert::FromSpecImpl<City> for Point {
    open spec fn obeys_from_spec() -> bool {
        true
    }

    open spec fn from_spec(v: City) -> Point {
        Point { lat: v.lat, lng: v.lng }
    }
}

/// The point-metadata endpoint of the weather service, without coordinates.
pub open spec fn points_base() -> Seq<char> {
    "http://api.weather.gov/points/"@
}

/// The metadata URL of a point: the base, the latitude, a comma, the longitude.
pub open spec fn point_url_text(p: Point) -> Seq<char> {
    points_base() + coordinate_text(p.lat as int) + seq![','] + coordinate_text(p.lng as int)
}

/// The URL that resolves a point to its forecast metadata.
pub fn point_url(p: &Point) -> (r: String)
    ensures
        r@ == point_url_text(*p),
{
    let mut url = String::from_str("http://api.weather.gov/points/");
    push_coordinate(&mut url, p.lat);
    crate::text::push_char(&mut url, ',');
    push_coordinate(&mut url, p.lng);
    url
}

} // verus!
