use nano::discord::EmbedField;
use nano::geolocation::{find_location, Location, GEOCODING_URL};
use nano::weather::{
    get_weather_forecast_from_loc, get_weather_icon_url, is_upcoming, location_not_found,
    units_or_metric, weather_forecast_msg, HourlyWeatherData, TempUnit, UnitSystem,
    WeatherResponse, WeatherUnits, FORECAST_URL, NUM_PAGES,
};

fn boston() -> Location {
    Location {
        name: "Boston".to_string(),
        latitude: "42.35843".to_string(),
        longitude: "-71.05977".to_string(),
        admin1: "Massachusetts".to_string(),
        country_code: "US".to_string(),
        timezone: "America/New_York".to_string(),
    }
}

fn pair(k: &str, v: &str) -> (String, String) {
    (k.to_string(), v.to_string())
}

fn forecast(times: Vec<u64>, offset: i64, unit: TempUnit) -> WeatherResponse {
    let n = times.len();
    WeatherResponse {
        latitude: "42.36".to_string(),
        longitude: "-71.06".to_string(),
        utc_offset_seconds: offset,
        hourly_units: WeatherUnits { apparent_temperature: unit },
        hourly: HourlyWeatherData {
            time: times,
            weathercode: (0..n).map(|i| if i == 0 { 3 } else { 61 }).collect(),
            apparent_temperature: (0..n).map(|i| format!("{}.5", i)).collect(),
            precipitation_probability: (0..n).map(|i| format!("{}", i * 10)).collect(),
        },
    }
}

const ICONS: &str =
    "https://cdn.jsdelivr.net/gh/manifestinteractive/weather-underground-icons/dist/icons/white/png/128x128/";

#[test]
fn icon_url_for_each_group_of_codes() {
    let cases: [(usize, &str); 12] = [
        (0, "clear"),
        (1, "mostlysunny"),
        (2, "partlycloudy"),
        (3, "cloudy"),
        (51, "chancerain"),
        (57, "chancesleet"),
        (65, "rain"),
        (77, "snow"),
        (86, "chancesnow"),
        (99, "tstorms"),
        (45, "unknown"),
        (4, "unknown"),
    ];
    for (code, name) in cases {
        assert_eq!(get_weather_icon_url(code), format!("{}{}.png", ICONS, name));
    }
}

#[test]
fn icon_url_covers_every_listed_code() {
    for code in [51, 53, 55, 80, 81, 82] {
        assert!(get_weather_icon_url(code).ends_with("/chancerain.png"));
    }
    for code in [56, 57] {
        assert!(get_weather_icon_url(code).ends_with("/chancesleet.png"));
    }
    for code in [61, 63, 65] {
        assert!(get_weather_icon_url(code).ends_with("/rain.png"));
    }
    for code in [71, 73, 75, 77] {
        assert!(get_weather_icon_url(code).ends_with("/snow.png"));
    }
    for code in [85, 86] {
        assert!(get_weather_icon_url(code).ends_with("/chancesnow.png"));
    }
    for code in [95, 96, 99] {
        assert!(get_weather_icon_url(code).ends_with("/tstorms.png"));
    }
    for code in [5, 48, 52, 60, 98, 100, usize::MAX] {
        assert!(get_weather_icon_url(code).ends_with("/unknown.png"));
    }
}

#[test]
fn query_args_name_the_units() {
    assert_eq!(
        UnitSystem::Imperial.query_args(),
        vec![
            pair("temperature_unit", "fahrenheit"),
            pair("windspeed_unit", "mph"),
            pair("precipitation_unit", "inch"),
        ]
    );
    assert_eq!(
        UnitSystem::Metric.query_args(),
        vec![
            pair("temperature_unit", "celsius"),
            pair("windspeed_unit", "kmh"),
            pair("precipitation_unit", "mm"),
        ]
    );
}

#[test]
fn temp_unit_symbols() {
    assert_eq!(TempUnit::Celsius.symbol(), "°C");
    assert_eq!(TempUnit::Fahrenheit.symbol(), "°F");
}

#[test]
fn units_default_to_metric() {
    assert_eq!(units_or_metric(None), UnitSystem::Metric);
    assert_eq!(units_or_metric(Some(UnitSystem::Imperial)), UnitSystem::Imperial);
}

#[test]
fn forecast_request_asks_for_place_time_and_units() {
    let request = get_weather_forecast_from_loc(&boston(), &UnitSystem::Metric);
    assert_eq!(
        request.url,
        "https://api.open-meteo.com/v1/forecast?hourly=weathercode,apparent_temperature,precipitation_probability"
    );
    assert_eq!(request.url, FORECAST_URL);
    assert_eq!(
        request.query,
        vec![
            pair("latitude", "42.35843"),
            pair("longitude", "-71.05977"),
            pair("timeformat", "unixtime"),
            pair("timezone", "auto"),
            pair("temperature_unit", "celsius"),
            pair("windspeed_unit", "kmh"),
            pair("precipitation_unit", "mm"),
        ]
    );
}

#[test]
fn location_request_asks_for_one_match() {
    let request = find_location("Charlotte");
    assert_eq!(request.url, "https://geocoding-api.open-meteo.com/v1/search");
    assert_eq!(request.url, GEOCODING_URL);
    assert_eq!(request.query, vec![pair("name", "Charlotte"), pair("count", "1")]);
}

#[test]
fn hourly_len_is_the_number_of_times() {
    let f = forecast(vec![1, 2, 3], 0, TempUnit::Celsius);
    assert_eq!(f.hourly.len(), 3);
    assert!(f.hourly.is_complete());
    let mut broken = f.hourly.clone();
    broken.weathercode.pop();
    assert_eq!(broken.len(), 3);
    assert!(!broken.is_complete());
}

#[test]
fn is_upcoming_shifts_by_the_offset_and_floors_at_zero() {
    assert!(is_upcoming(100, 0, 100));
    assert!(!is_upcoming(99, 0, 100));
    assert!(is_upcoming(90, 10, 100));
    assert!(!is_upcoming(100, -1, 100));
    assert!(!is_upcoming(5, -10, 1));
    assert!(is_upcoming(5, -10, 0));
    assert!(is_upcoming(u64::MAX, i64::MAX, u64::MAX));
    assert!(!is_upcoming(0, i64::MIN, 1));
}

#[test]
fn forecast_skips_past_hours_and_numbers_pages_from_zero() {
    let f = forecast(vec![10, 20, 30, 40], 0, TempUnit::Celsius);
    let pages = weather_forecast_msg(&boston(), &f, 25);
    assert_eq!(pages.len(), 2);
    let first = &pages[0];
    assert_eq!(first.title, "Forecast for Boston, Massachusetts, US");
    assert_eq!(first.description, Some("T+0".to_string()));
    assert_eq!(
        first.url,
        Some("https://merrysky.net/forecast/42.35843,-71.05977".to_string())
    );
    assert_eq!(first.image, Some(format!("{}cloudy.png", ICONS)));
    assert_eq!(first.color, Some((229, 100, 255)));
    assert_eq!(first.footer, Some("Courtesy of OpenMeteo".to_string()));
    assert_eq!(
        first.fields,
        vec![
            EmbedField {
                name: "Felt Temperature".to_string(),
                value: "2.5 °C".to_string(),
                inline: false
            },
            EmbedField {
                name: "Precipitation Chance".to_string(),
                value: "20%".to_string(),
                inline: false
            },
        ]
    );
    let second = &pages[1];
    assert_eq!(second.description, Some("T+1".to_string()));
    assert_eq!(second.fields[0].value, "3.5 °C");
    assert_eq!(second.fields[1].value, "30%");
    assert_eq!(second.image, Some(format!("{}cloudy.png", ICONS)));
}

#[test]
fn forecast_stops_at_ten_pages() {
    let f = forecast((0..24).map(|h| 1000 + h * 3600).collect(), 0, TempUnit::Fahrenheit);
    let pages = weather_forecast_msg(&boston(), &f, 0);
    assert_eq!(pages.len(), NUM_PAGES);
    assert_eq!(pages.len(), 10);
    assert_eq!(pages[9].description, Some("T+9".to_string()));
    assert_eq!(pages[9].fields[0].value, "9.5 °F");
}

#[test]
fn forecast_counts_time_in_the_place_s_own_clock() {
    let f = forecast(vec![100, 200], -150, TempUnit::Celsius);
    assert_eq!(weather_forecast_msg(&boston(), &f, 1).len(), 1);
    assert_eq!(weather_forecast_msg(&boston(), &f, 0).len(), 2);
    let ahead = forecast(vec![100, 200], 3600, TempUnit::Celsius);
    assert_eq!(weather_forecast_msg(&boston(), &ahead, 3700).len(), 2);
    assert_eq!(weather_forecast_msg(&boston(), &ahead, 3701).len(), 1);
}

#[test]
fn forecast_of_nothing_or_of_the_past_is_empty() {
    let none = forecast(vec![], 0, TempUnit::Celsius);
    assert!(weather_forecast_msg(&boston(), &none, 0).is_empty());
    let past = forecast(vec![1, 2, 3], 0, TempUnit::Celsius);
    assert!(weather_forecast_msg(&boston(), &past, 4).is_empty());
}

#[test]
fn location_not_found_names_the_place() {
    assert_eq!(location_not_found("Atlantis"), "Could not find location: Atlantis");
}
