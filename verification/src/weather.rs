//! A dispatch demo: the configuration names one of two weather services,
//! and the chosen service reports a loading message. The variant set is
//! closed, so an unknown name is ruled out up front instead of failing at
//! run time.

use vstd::prelude::*;
use vstd::string::StringExecFns;

verus! {

/// Which weather service the user configured.
pub struct Config {
    pub weather_service: String,
}

/// A service that can report the weather as text.
pub trait WeatherService {
    /// The text this service reports.
    spec fn weather_message(&self) -> Seq<char>;

    /// Reports the weather.
    fn get_weather(&self) -> (r: String)
        ensures
            r@ == self.weather_message(),
    ;
}

/// The OpenWeather service, which needs an API key.
pub struct OpenWeather {
    api_key: String,
}

impl WeatherService for OpenWeather {
    /// OpenWeather reports that it loads with its quoted API key.
    closed spec fn weather_message(&self) -> Seq<char> {
        "Loading weather from OpenWeather using \""@ + self.api_key@ + "\""@
    }

    fn get_weather(&self) -> (r: String) {
        let mut r = String::from_str("Loading weather from OpenWeather using \"");
        r.append(self.api_key.as_str());
        r.append("\"");
        r
    }
}

/// The wttr.in service, which needs no configuration.
pub struct WttrIn;

impl WeatherService for WttrIn {
    open spec fn weather_message(&self) -> Seq<char> {
        "Loading weather from WttrIn"@
    }

    fn get_weather(&self) -> (r: String) {
        String::from_str("Loading weather from WttrIn")
    }
}

/// The service names the configuration may carry; any other name is
/// rejected before the demo runs.
pub open spec fn known_service(name: Seq<char>) -> bool {
    name == "openweather"@ || name == "wttrin"@
}

/// Picks the configured weather service and returns its report: the
/// OpenWeather service is built with the demo API key `123`, the wttr.in
/// service with nothing.
pub fn run(config: Config) -> (r: String)
    requires
        known_service(config.weather_service@),
    ensures
        config.weather_service@ == "openweather"@ ==> r@
            == "Loading weather from OpenWeather using \""@ + "123"@ + "\""@,
        config.weather_service@ == "wttrin"@ ==> r@ == "Loading weather from WttrIn"@,
{
    proof {
        reveal_strlit("openweather");
        reveal_strlit("wttrin");
        assert("openweather"@.len() == 11);
        assert("wttrin"@.len() == 6);
    }
    if config.weather_service == String::from_str("openweather") {
        let service = OpenWeather { api_key: String::from_str("123") };
        service.get_weather()
    } else {
        let service = WttrIn;
        service.get_weather()
    }
}

} // verus!
