//! The weather report as the assistant reads it, and the text that tells
//! the language model about it.

use vstd::prelude::*;
use vstd::string::*;

verus! {

/// Where the report is for.
#[derive(Clone, Debug, PartialEq, Eq)]
pub struct LocationResponse {
    pub name: String,
    pub region: String,
    pub country: String,
}

/// The sky, in words, and the icon that goes with it.
#[derive(Clone, Debug, PartialEq, Eq)]
pub struct Condition {
    pub text: String,
    pub icon: String,
}

/// The current weather. The temperature, in degrees Fahrenheit, is held as
/// the decimal text in which it is shown.
#[derive(Clone, Debug, PartialEq, Eq)]
pub struct CurrentResponse {
    pub temp_f: String,
    pub condition: Condition,
}

/// One answer of the weather service.
#[derive(Clone, Debug, PartialEq, Eq)]
pub struct WeatherResponse {
    pub location: LocationResponse,
    pub current: CurrentResponse,
}

/// The two lines that report the weather: the place, then the temperature.
pub open spec fn weather_text(name: Seq<char>, temperature: Seq<char>) -> Seq<char> {
    "Location:"@ + name + "\nWeather:"@ + temperature + " Degrees Farenheit\n"@
}

/// Renders a weather report as the two lines that the model is shown.
pub fn weather_string(weather: &WeatherResponse) -> (text: String)
    ensures
        text@ == weather_text(weather.location.name@, weather.current.temp_f@),
{
    let mut text = String::from_str("Location:");
    text.append(weather.location.name.as_str());
    text.append("\nWeather:");
    text.append(weather.current.temp_f.as_str());
    text.append(" Degrees Farenheit\n");
    text
}

/// The address of the weather service's current-conditions lookup for a
/// key and a free-text location.
pub open spec fn weather_url(api_key: Seq<char>, location: Seq<char>) -> Seq<char> {
    "http://api.weatherapi.com/v1/current.json?key="@ + api_key + "&q="@ + location + "&aqi=no"@
}

/// Builds the address to ask for the current weather at `location`.
pub fn weather_request_url(api_key: &str, location: &str) -> (url: String)
    ensures
        url@ == weather_url(api_key@, location@),
{
    let mut url = String::from_str("http://api.weatherapi.com/v1/current.json?key=");
    url.append(api_key);
    url.append("&q=");
    url.append(location);
    url.append("&aqi=no");
    url
}

} // verus!
