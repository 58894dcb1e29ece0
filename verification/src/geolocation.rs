//! Looking up places by name.

use vstd::prelude::*;
use vstd::string::*;
use crate::request::{push_pair, Pair, Request, RequestView};

verus! {

/// Where places are looked up.
pub const GEOCODING_URL: &'static str = "https://geocoding-api.open-meteo.com/v1/search";

/// A place found by name. Coordinates are kept as the service writes them.
#[derive(Debug, Clone, PartialEq, Eq)]
pub struct Location {
    /// The location name.
    pub name: String,
    /// The latitude (WGS84), in decimal notation.
    pub latitude: String,
    /// The longitude (WGS84), in decimal notation.
    pub longitude: String,
    /// The first administrative level (a state, a province).
    pub admin1: String,
    /// The country code.
    pub country_code: String,
    /// The timezone.
    pub timezone: String,
}

/// What a [`Location`] holds, as mathematical values.
pub struct LocationView {
    pub name: Seq<char>,
    pub latitude: Seq<char>,
    pub longitude: Seq<char>,
    pub admin1: Seq<char>,
    pub country_code: Seq<char>,
    pub timezone: Seq<char>,
}

impl View for Location {
    type V = LocationView;

    open spec fn view(&self) -> LocationView {
        LocationView {
            name: self.name@,
            latitude: self.latitude@,
            longitude: self.longitude@,
            admin1: self.admin1@,
            country_code: self.country_code@,
            timezone: self.timezone@,
        }
    }
}

/// The request that asks for the single best match for `name`.
pub open spec fn location_request(name: Seq<char>) -> RequestView {
    RequestView { url: GEOCODING_URL@, query: seq![("name"@, name), ("count"@, "1"@)] }
}

/// The request to send in order to find the place called `name`.
pub fn find_location(name: &str) -> (request: Request)
    ensures
        request@ == location_request(name@),
{
    let mut query: Vec<Pair> = Vec::new();
    push_pair(&mut query, "name", name);
    push_pair(&mut query, "count", "1");
    let request = Request { url: String::from_str(GEOCODING_URL), query };
    assert(request@.query =~= location_request(name@).query);
    request
}

} // verus!
