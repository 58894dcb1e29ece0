//! Weather forecasts: what to ask the forecast service, and how its answer
//! is shown, one card for each of the next hours.

use vstd::prelude::*;
use vstd::string::*;
use crate::discord::{embed_views, Embed, EmbedField, EmbedFieldView, EmbedView};
use crate::geolocation::{Location, LocationView};
use crate::request::{push_pair, Pair, Request, RequestView};
use crate::text::{decimal, decimal_string};

verus! {

/// How many hours a forecast shows at most.
pub const NUM_PAGES: usize = 10;

/// Where forecasts are fetched, with the readings asked of each hour.
pub const FORECAST_URL: &'static str =
    "https://api.open-meteo.com/v1/forecast?hourly=weathercode,apparent_temperature,precipitation_probability";

/// Groups of units for the weather.
#[derive(Debug, Copy, Clone, Hash, Eq, PartialEq, Structural)]
pub enum UnitSystem {
    /// The US imperial system.
    Imperial,
    /// The metric system.
    Metric,
}

/// Temperature units.
#[derive(Debug, Copy, Clone, Hash, Eq, PartialEq, Structural)]
pub enum TempUnit {
    /// Celsius.
    Celsius,
    /// Fahrenheit.
    Fahrenheit,
}

/// The units that the results are in.
#[derive(Debug, Clone, Copy, PartialEq, Eq)]
pub struct WeatherUnits {
    pub apparent_temperature: TempUnit,
}

/// Hourly weather data, one entry per hour in each list. Readings are kept
/// as the service writes them.
#[derive(Debug, Clone, PartialEq, Eq)]
pub struct HourlyWeatherData {
    /// The times of each forecast, in UNIX time.
    pub time: Vec<u64>,
    /// The weather codes, in WMO format.
    pub weathercode: Vec<usize>,
    /// The apparent temperature, in decimal notation.
    pub apparent_temperature: Vec<String>,
    /// The maximum precipitation probability, as a percent in decimal
    /// notation.
    pub precipitation_probability: Vec<String>,
}

/// What an [`HourlyWeatherData`] holds, as mathematical values.
pub struct HourlyView {
    pub time: Seq<u64>,
    pub weathercode: Seq<usize>,
    pub apparent_temperature: Seq<Seq<char>>,
    pub precipitation_probability: Seq<Seq<char>>,
}

impl View for HourlyWeatherData {
    type V = HourlyView;

    open spec fn view(&self) -> HourlyView {
        HourlyView {
            time: self.time@,
            weathercode: self.weathercode@,
            apparent_temperature: crate::text::views(self.apparent_temperature@),
            precipitation_probability: crate::text::views(self.precipitation_probability@),
        }
    }
}

/// Weather response data for an hourly weather data request.
#[derive(Debug, Clone, PartialEq, Eq)]
pub struct WeatherResponse {
    /// The latitude, in decimal notation.
    pub latitude: String,
    /// The longitude, in decimal notation.
    pub longitude: String,
    /// The offset of the place's time from UTC, in seconds.
    pub utc_offset_seconds: i64,
    /// The units used.
    pub hourly_units: WeatherUnits,
    /// The hourly weather data itself.
    pub hourly: HourlyWeatherData,
}

/// What a [`WeatherResponse`] holds, as mathematical values.
pub struct WeatherResponseView {
    pub latitude: Seq<char>,
    pub longitude: Seq<char>,
    pub utc_offset_seconds: i64,
    pub hourly_units: WeatherUnits,
    pub hourly: HourlyView,
}

impl View for WeatherResponse {
    type V = WeatherResponseView;

    open spec fn view(&self) -> WeatherResponseView {
        WeatherResponseView {
            latitude: self.latitude@,
            longitude: self.longitude@,
            utc_offset_seconds: self.utc_offset_seconds,
            hourly_units: self.hourly_units,
            hourly: self.hourly@,
        }
    }
}

/// Every hour has all of its readings.
pub open spec fn complete(hourly: HourlyView) -> bool {
    &&& hourly.weathercode.len() == hourly.time.len()
    &&& hourly.apparent_temperature.len() == hourly.time.len()
    &&& hourly.precipitation_probability.len() == hourly.time.len()
}

/// The pairs that make the service answer in the units of `units`.
pub open spec fn unit_args(units: UnitSystem) -> Seq<(Seq<char>, Seq<char>)> {
    match units {
        UnitSystem::Imperial => seq![
            ("temperature_unit"@, "fahrenheit"@),
            ("windspeed_unit"@, "mph"@),
            ("precipitation_unit"@, "inch"@),
        ],
        UnitSystem::Metric => seq![
            ("temperature_unit"@, "celsius"@),
            ("windspeed_unit"@, "kmh"@),
            ("precipitation_unit"@, "mm"@),
        ],
    }
}

/// How a temperature unit is written.
pub open spec fn unit_symbol(unit: TempUnit) -> Seq<char> {
    match unit {
        TempUnit::Celsius => "°C"@,
        TempUnit::Fahrenheit => "°F"@,
    }
}

/// The request for the hourly forecast at a place: its coordinates, times
/// as UNIX time in the place's own timezone, and the units.
pub open spec fn forecast_request(loc: LocationView, units: UnitSystem) -> RequestView {
    RequestView {
        url: FORECAST_URL@,
        query: seq![
            ("latitude"@, loc.latitude),
            ("longitude"@, loc.longitude),
            ("timeformat"@, "unixtime"@),
            ("timezone"@, "auto"@),
        ] + unit_args(units),
    }
}

/// The name of the icon for a WMO weather code.
pub open spec fn icon_name(wmo_code: usize) -> Seq<char> {
    if wmo_code == 0 {
        "clear"@
    } else if wmo_code == 1 {
        "mostlysunny"@
    } else if wmo_code == 2 {
        "partlycloudy"@
    } else if wmo_code == 3 {
        "cloudy"@
    } else if wmo_code == 51 || wmo_code == 53 || wmo_code == 55 || wmo_code == 80 || wmo_code
        == 81 || wmo_code == 82 {
        "chancerain"@
    } else if wmo_code == 56 || wmo_code == 57 {
        "chancesleet"@
    } else if wmo_code == 61 || wmo_code == 63 || wmo_code == 65 {
        "rain"@
    } else if wmo_code == 71 || wmo_code == 73 || wmo_code == 75 || wmo_code == 77 {
        "snow"@
    } else if wmo_code == 85 || wmo_code == 86 {
        "chancesnow"@
    } else if wmo_code == 95 || wmo_code == 96 || wmo_code == 99 {
        "tstorms"@
    } else {
        "unknown"@
    }
}

/// The address of the icon for a WMO weather code.
pub open spec fn icon_url(wmo_code: usize) -> Seq<char> {
    "https://cdn.jsdelivr.net/gh/manifestinteractive/weather-underground-icons/dist/icons/white/png/128x128/"@
        + icon_name(wmo_code) + ".png"@
}

/// The time `time` moved by `offset` seconds, and 0 where that lies before
/// the start of UNIX time.
pub open spec fn shifted(time: u64, offset: i64) -> int {
    if time + offset < 0 {
        0
    } else {
        time + offset
    }
}

/// Whether the hour at `time` is still to come at `now`.
pub open spec fn upcoming(time: u64, offset: i64, now: u64) -> bool {
    shifted(time, offset) >= now
}

/// The card for hour `hour` of the forecast, shown as page `page`. The icon
/// is that of the forecast's first hour.
pub open spec fn forecast_page(
    loc: LocationView,
    forecast: WeatherResponseView,
    hour: int,
    page: nat,
) -> EmbedView {
    EmbedView {
        title: "Forecast for "@ + loc.name + ", "@ + loc.admin1 + ", "@ + loc.country_code,
        description: Some("T+"@ + decimal(page)),
        url: Some("https://merrysky.net/forecast/"@ + loc.latitude + ","@ + loc.longitude),
        image: Some(icon_url(forecast.hourly.weathercode[0])),
        color: Some((229u8, 100u8, 255u8)),
        fields: seq![
            EmbedFieldView {
                name: "Felt Temperature"@,
                value: forecast.hourly.apparent_temperature[hour] + " "@ + unit_symbol(
                    forecast.hourly_units.apparent_temperature,
                ),
                inline: false,
            },
            EmbedFieldView {
                name: "Precipitation Chance"@,
                value: forecast.hourly.precipitation_probability[hour] + "%"@,
                inline: false,
            },
        ],
        footer: Some("Courtesy of OpenMeteo"@),
    }
}

/// The cards made of the first `hours` hours of the forecast: one for each
/// hour still to come, in order, until there are as many as a forecast
/// shows.
pub open spec fn pages_of(
    loc: LocationView,
    forecast: WeatherResponseView,
    now: u64,
    hours: nat,
) -> Seq<EmbedView>
    decreases hours,
{
    if hours == 0 {
        Seq::empty()
    } else {
        let before = pages_of(loc, forecast, now, (hours - 1) as nat);
        if before.len() < NUM_PAGES && upcoming(
            forecast.hourly.time[hours - 1],
            forecast.utc_offset_seconds,
            now,
        ) {
            before.push(forecast_page(loc, forecast, hours - 1, before.len()))
        } else {
            before
        }
    }
}

/// The cards of the whole forecast.
pub open spec fn forecast_pages(loc: LocationView, forecast: WeatherResponseView, now: u64) -> Seq<
    EmbedView,
> {
    pages_of(loc, forecast, now, forecast.hourly.time.len())
}

/// Once a forecast is full, further hours add nothing.
pub proof fn lemma_full_forecast_stays(
    loc: LocationView,
    forecast: WeatherResponseView,
    now: u64,
    full: nat,
    hours: nat,
)
    requires
        full <= hours,
        pages_of(loc, forecast, now, full).len() >= NUM_PAGES,
    ensures
        pages_of(loc, forecast, now, hours) == pages_of(loc, forecast, now, full),
    decreases hours,
{
    if full < hours {
        lemma_full_forecast_stays(loc, forecast, now, full, (hours - 1) as nat);
    }
}

/// A forecast shows no more hours than it is given, and never more than a
/// forecast holds.
pub proof fn lemma_forecast_is_bounded(
    loc: LocationView,
    forecast: WeatherResponseView,
    now: u64,
    hours: nat,
)
    ensures
        pages_of(loc, forecast, now, hours).len() <= hours,
        pages_of(loc, forecast, now, hours).len() <= NUM_PAGES,
    decreases hours,
{
    if hours > 0 {
        lemma_forecast_is_bounded(loc, forecast, now, (hours - 1) as nat);
    }
}

/// The pages of a forecast are numbered from 0 in the order in which they
/// are shown.
pub proof fn lemma_pages_are_numbered(
    loc: LocationView,
    forecast: WeatherResponseView,
    now: u64,
    hours: nat,
    page: int,
)
    requires
        0 <= page < pages_of(loc, forecast, now, hours).len(),
    ensures
        pages_of(loc, forecast, now, hours)[page].description == Some(
            "T+"@ + decimal(page as nat),
        ),
    decreases hours,
{
    if hours > 0 {
        let before = pages_of(loc, forecast, now, (hours - 1) as nat);
        if page < before.len() {
            lemma_pages_are_numbered(loc, forecast, now, (hours - 1) as nat, page);
        }
    }
}

impl UnitSystem {
    /// The query arguments that make the service use the system.
    pub fn query_args(&self) -> (args: Vec<Pair>)
        ensures
            crate::request::pair_views(args@) == unit_args(*self),
    {
        let mut args: Vec<Pair> = Vec::new();
        match self {
            UnitSystem::Imperial => {
                push_pair(&mut args, "temperature_unit", "fahrenheit");
                push_pair(&mut args, "windspeed_unit", "mph");
                push_pair(&mut args, "precipitation_unit", "inch");
            },
            UnitSystem::Metric => {
                push_pair(&mut args, "temperature_unit", "celsius");
                push_pair(&mut args, "windspeed_unit", "kmh");
                push_pair(&mut args, "precipitation_unit", "mm");
            },
        }
        assert(crate::request::pair_views(args@) =~= unit_args(*self));
        args
    }
}

impl TempUnit {
    /// How the unit is written.
    pub fn symbol(&self) -> (written: &'static str)
        ensures
            written@ == unit_symbol(*self),
    {
        match self {
            TempUnit::Celsius => "°C",
            TempUnit::Fahrenheit => "°F",
        }
    }
}

impl HourlyWeatherData {
    /// Gets the length of the data.
    pub fn len(&self) -> (hours: usize)
        ensures
            hours == self@.time.len(),
    {
        self.time.len()
    }

    /// Whether every hour has all of its readings.
    pub fn is_complete(&self) -> (whole: bool)
        ensures
            whole == complete(self@),
    {
        self.weathercode.len() == self.time.len() && self.apparent_temperature.len()
            == self.time.len() && self.precipitation_probability.len() == self.time.len()
    }
}

/// The units in effect: those asked for, or metric.
pub fn units_or_metric(units: Option<UnitSystem>) -> (chosen: UnitSystem)
    ensures
        chosen == match units {
            Some(u) => u,
            None => UnitSystem::Metric,
        },
{
    match units {
        Some(u) => u,
        None => UnitSystem::Metric,
    }
}

/// The request to send for the hourly forecast at `loc` in `units`.
pub fn get_weather_forecast_from_loc(loc: &Location, units: &UnitSystem) -> (request: Request)
    ensures
        request@ == forecast_request(loc@, *units),
{
    let mut query: Vec<Pair> = Vec::new();
    push_pair(&mut query, "latitude", loc.latitude.as_str());
    push_pair(&mut query, "longitude", loc.longitude.as_str());
    push_pair(&mut query, "timeformat", "unixtime");
    push_pair(&mut query, "timezone", "auto");
    let mut args = units.query_args();
    let ghost head = query@;
    let ghost tail = args@;
    query.append(&mut args);
    assert(query@ == head + tail);
    assert(crate::request::pair_views(head + tail) =~= crate::request::pair_views(head)
        + crate::request::pair_views(tail));
    let request = Request { url: String::from_str(FORECAST_URL), query };
    assert(request@.query =~= forecast_request(loc@, *units).query);
    request
}

/// Gets the appropriate weather icon URL for a given WMO weather code.
pub fn get_weather_icon_url(wmo_code: usize) -> (url: String)
    ensures
        url@ == icon_url(wmo_code),
{
    let name = match wmo_code {
        0 => "clear",  // clear sky
        1 => "mostlysunny",  // mainly clear
        2 => "partlycloudy",
        3 => "cloudy",  // overcast
        51 | 53 | 55 | 80 | 81 | 82 => "chancerain",  // drizzles and rain showers
        56 | 57 => "chancesleet",  // freezing drizzles
        61 | 63 | 65 => "rain",
        71 | 73 | 75 | 77 => "snow",  // snow and snow grains
        85 | 86 => "chancesnow",  // snow showers
        95 | 96 | 99 => "tstorms",  // thunderstorms
        _ => "unknown",  // everything else, fog too
    };
    let mut url = String::from_str(
        "https://cdn.jsdelivr.net/gh/manifestinteractive/weather-underground-icons/dist/icons/white/png/128x128/",
    );
    url.append(name);
    url.append(".png");
    url
}

/// Whether the hour at `time`, moved by `offset` seconds, is still to come
/// at `now`.
pub fn is_upcoming(time: u64, offset: i64, now: u64) -> (ahead: bool)
    ensures
        ahead == upcoming(time, offset, now),
{
    let moved: i128 = time as i128 + offset as i128;
    if moved < 0 {
        now == 0
    } else {
        moved >= now as i128
    }
}

fn page(loc: &Location, forecast: &WeatherResponse, hour: usize, number: usize) -> (card: Embed)
    requires
        complete(forecast@.hourly),
        hour < forecast@.hourly.time.len(),
    ensures
        card@ == forecast_page(loc@, forecast@, hour as int, number as nat),
{
    let mut title = String::from_str("Forecast for ");
    title.append(loc.name.as_str());
    title.append(", ");
    title.append(loc.admin1.as_str());
    title.append(", ");
    title.append(loc.country_code.as_str());
    let mut description = String::from_str("T+");
    description.append(decimal_string(number as u64).as_str());
    let mut url = String::from_str("https://merrysky.net/forecast/");
    url.append(loc.latitude.as_str());
    url.append(",");
    url.append(loc.longitude.as_str());
    let mut felt = forecast.hourly.apparent_temperature[hour].clone();
    felt.append(" ");
    felt.append(forecast.hourly_units.apparent_temperature.symbol());
    let mut chance = forecast.hourly.precipitation_probability[hour].clone();
    chance.append("%");
    let mut fields: Vec<EmbedField> = Vec::new();
    fields.push(EmbedField { name: String::from_str("Felt Temperature"), value: felt, inline: false });
    fields.push(
        EmbedField { name: String::from_str("Precipitation Chance"), value: chance, inline: false },
    );
    let card = Embed {
        title,
        description: Some(description),
        url: Some(url),
        image: Some(get_weather_icon_url(forecast.hourly.weathercode[0])),
        color: Some((229, 100, 255)),
        fields,
        footer: Some(String::from_str("Courtesy of OpenMeteo")),
    };
    assert(card@.fields =~= forecast_page(loc@, forecast@, hour as int, number as nat).fields);
    card
}

/// Reports the weather forecast at `loc`: one card for each of the next
/// hours, counted from `now` in UNIX time.
pub fn weather_forecast_msg(loc: &Location, forecast: &WeatherResponse, now: u64) -> (pages: Vec<
    Embed,
>)
    requires
        complete(forecast@.hourly),
    ensures
        embed_views(pages@) == forecast_pages(loc@, forecast@, now),
{
    let hours: usize = forecast.hourly.len();
    let mut pages: Vec<Embed> = Vec::new();
    let mut i: usize = 0;
    while i < hours && pages.len() < NUM_PAGES
        invariant
            i <= hours,
            hours == forecast@.hourly.time.len(),
            complete(forecast@.hourly),
            embed_views(pages@) == pages_of(loc@, forecast@, now, i as nat),
        decreases hours - i,
    {
        if is_upcoming(forecast.hourly.time[i], forecast.utc_offset_seconds, now) {
            let card = page(loc, forecast, i, pages.len());
            let ghost before = embed_views(pages@);
            pages.push(card);
            assert(embed_views(pages@) == before.push(card@));
        }
        i += 1;
    }
    proof {
        if i < hours {
            lemma_full_forecast_stays(loc@, forecast@, now, i as nat, hours as nat);
        }
    }
    pages
}

/// What is reported when the place `location` cannot be found.
pub fn location_not_found(location: &str) -> (report: String)
    ensures
        report@ == "Could not find location: "@ + location@,
{
    let mut report = String::from_str("Could not find location: ");
    report.append(location);
    report
}

} // verus!
