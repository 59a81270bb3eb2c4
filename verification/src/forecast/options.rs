//! What a forecast or archive request asks for, and the query parameters
//! that say so.

use crate::datetime::{format_ymd, iso_date_text, NaiveDate};
use crate::forecast::units::{
    CellSelection, Elevation, PrecipitationUnit, TemperatureUnit, WindSpeedUnit,
};
use crate::location::Location;
use crate::text::{decimal, decimal_string, join, joined, texts};
use vstd::prelude::*;

verus! {

/// The query parameters of a request: names and values as characters.
pub open spec fn params_view(params: Seq<(String, String)>) -> Seq<(Seq<char>, Seq<char>)> {
    Seq::new(params.len(), |i: int| (params[i].0@, params[i].1@))
}

/// A list of parameters with one more behind, where there is a value.
pub open spec fn with_optional(
    params: Seq<(Seq<char>, Seq<char>)>,
    key: Seq<char>,
    value: Option<Seq<char>>,
) -> Seq<(Seq<char>, Seq<char>)> {
    match value {
        Some(value) => params.push((key, value)),
        None => params,
    }
}

/// A list of parameters with one more behind that holds the names of
/// `parts` with commas between them, where there is any name.
pub open spec fn with_list(
    params: Seq<(Seq<char>, Seq<char>)>,
    key: Seq<char>,
    parts: Seq<String>,
) -> Seq<(Seq<char>, Seq<char>)> {
    if parts.len() == 0 {
        params
    } else {
        params.push((key, joined(texts(parts), ","@)))
    }
}

/// Appends a parameter.
pub fn push_param(params: &mut Vec<(String, String)>, key: &str, value: String)
    ensures
        params_view(final(params)@) == params_view(old(params)@).push((key@, value@)),
{
    params.push((String::from_str(key), value));
    assert(params_view(params@) =~= params_view(old(params)@).push((key@, value@)));
}

/// Appends a parameter, where there is a value.
pub fn push_optional(params: &mut Vec<(String, String)>, key: &str, value: Option<String>)
    ensures
        params_view(final(params)@) == with_optional(
            params_view(old(params)@),
            key@,
            match value {
                Some(value) => Some(value@),
                None => None,
            },
        ),
{
    match value {
        Some(value) => push_param(params, key, value),
        None => {},
    }
}

/// Appends a parameter that holds the names of `parts` with commas between
/// them, where there is any name.
pub fn push_list(params: &mut Vec<(String, String)>, key: &str, parts: &Vec<String>)
    ensures
        params_view(final(params)@) == with_list(params_view(old(params)@), key@, parts@),
{
    if parts.len() > 0 {
        push_param(params, key, join(parts, ","));
    }
}

/// The text of an optional number.
pub open spec fn optional_decimal(value: Option<nat>) -> Option<Seq<char>> {
    match value {
        Some(n) => Some(decimal(n)),
        None => None,
    }
}

/// The text of an optional date.
pub open spec fn optional_date(value: Option<NaiveDate>) -> Option<Seq<char>> {
    match value {
        Some(date) => iso_date_text(date),
        None => None,
    }
}

/// The text of an optional string.
pub open spec fn optional_text(value: Option<String>) -> Option<Seq<char>> {
    match value {
        Some(text) => Some(text@),
        None => None,
    }
}

/// Writes an optional date as a request names it: year, month and day with
/// hyphens between. Gives nothing for a day that the calendar does not hold.
pub fn date_param(value: &Option<NaiveDate>) -> (r: Option<String>)
    ensures
        optional_text(r) == optional_date(*value),
{
    match value {
        Some(date) => format_ymd(date),
        None => None,
    }
}

/// What a forecast or archive request asks for.
#[derive(Debug, Clone)]
pub struct Options {
    pub location: Location,
    pub elevation: Option<Elevation>,
    /// Attributes to request in steps of 15 minutes
    pub minutely_15: Vec<String>,
    /// Attributes to request in hourly intervals
    pub hourly: Vec<String>,
    /// Attributes to request in daily intervals
    pub daily: Vec<String>,
    /// Attributes to request for current weather
    pub current: Vec<String>,
    pub temperature_unit: Option<TemperatureUnit>,
    pub wind_speed_unit: Option<WindSpeedUnit>,
    pub precipitation_unit: Option<PrecipitationUnit>,
    pub time_zone: Option<String>,
    pub past_days: Option<u8>,
    pub forecast_days: Option<u8>,
    /// The number of steps of 15 minutes; the server gives at most 1536
    pub forecast_minutely_15: Option<u16>,
    pub start_date: Option<NaiveDate>,
    pub end_date: Option<NaiveDate>,
    pub models: Option<Vec<String>>,
    pub cell_selection: Option<CellSelection>,
    pub apikey: Option<String>,
}

impl Default for Options {
    /// The default place in the time zone UTC, and nothing else.
    fn default() -> (options: Options)
        ensures
            options.location.lat@ == "52.52"@,
            options.location.lng@ == "13.41"@,
            options.elevation.is_none(),
            options.minutely_15@.len() == 0,
            options.hourly@.len() == 0,
            options.daily@.len() == 0,
            options.current@.len() == 0,
            options.temperature_unit.is_none(),
            options.wind_speed_unit.is_none(),
            options.precipitation_unit.is_none(),
            optional_text(options.time_zone) == Some("UTC"@),
            options.past_days.is_none(),
            options.forecast_days.is_none(),
            options.forecast_minutely_15.is_none(),
            options.start_date.is_none(),
            options.end_date.is_none(),
            options.models.is_none(),
            options.cell_selection.is_none(),
            options.apikey.is_none(),
    {
        Options {
            location: Location::default(),
            elevation: None,
            minutely_15: Vec::new(),
            hourly: Vec::new(),
            daily: Vec::new(),
            current: Vec::new(),
            temperature_unit: None,
            wind_speed_unit: None,
            precipitation_unit: None,
            time_zone: Some(String::from_str("UTC")),
            past_days: None,
            forecast_days: None,
            forecast_minutely_15: None,
            start_date: None,
            end_date: None,
            models: None,
            cell_selection: None,
            apikey: None,
        }
    }
}

impl Options {
    /// The query parameters of the request, in the order in which they are
    /// sent. The place and the time format always come first; each other
    /// parameter is there where the options name a value for it, a list
    /// where it has an entry. A date that the calendar does not hold is
    /// left out.
    pub open spec fn spec_params(&self) -> Seq<(Seq<char>, Seq<char>)> {
        let p = Seq::<(Seq<char>, Seq<char>)>::empty();
        let p = p.push(("latitude"@, self.location.lat@));
        let p = p.push(("longitude"@, self.location.lng@));
        let p = p.push(("timeformat"@, "unixtime"@));
        let p = with_optional(
            p,
            "elevation"@,
            match self.elevation {
                Some(elevation) => Some(elevation.text()),
                None => None,
            },
        );
        let p = with_optional(
            p,
            "temperature_unit"@,
            match self.temperature_unit {
                Some(unit) => Some(unit.text()),
                None => None,
            },
        );
        let p = with_optional(
            p,
            "windspeed_unit"@,
            match self.wind_speed_unit {
                Some(unit) => Some(unit.text()),
                None => None,
            },
        );
        let p = with_optional(
            p,
            "precipitation_unit"@,
            match self.precipitation_unit {
                Some(unit) => Some(unit.text()),
                None => None,
            },
        );
        let p = with_optional(p, "timezone"@, optional_text(self.time_zone));
        let p = with_optional(
            p,
            "past_days"@,
            optional_decimal(
                match self.past_days {
                    Some(days) => Some(days as nat),
                    None => None,
                },
            ),
        );
        let p = with_optional(
            p,
            "forecast_minutely_15"@,
            optional_decimal(
                match self.forecast_minutely_15 {
                    Some(steps) => Some(steps as nat),
                    None => None,
                },
            ),
        );
        let p = with_optional(
            p,
            "forecast_days"@,
            optional_decimal(
                match self.forecast_days {
                    Some(days) => Some(days as nat),
                    None => None,
                },
            ),
        );
        let p = with_optional(p, "start_date"@, optional_date(self.start_date));
        let p = with_optional(p, "end_date"@, optional_date(self.end_date));
        let p = with_list(p, "current"@, self.current@);
        let p = with_list(p, "minutely_15"@, self.minutely_15@);
        let p = with_list(p, "hourly"@, self.hourly@);
        let p = with_list(p, "daily"@, self.daily@);
        let p = match self.models {
            Some(models) => with_list(p, "models"@, models@),
            None => p,
        };
        let p = with_optional(
            p,
            "cell_selection"@,
            match self.cell_selection {
                Some(selection) => Some(selection.text()),
                None => None,
            },
        );
        let p = with_optional(p, "apikey"@, optional_text(self.apikey));
        p
    }

    /// The query parameters of the request, in the order in which they are
    /// sent.
    #[must_use]
    pub fn as_params(self) -> (params: Vec<(String, String)>)
        ensures
            params_view(params@) == self.spec_params(),
    {
        let mut params: Vec<(String, String)> = Vec::new();
        assert(params_view(params@) =~= Seq::<(Seq<char>, Seq<char>)>::empty());
        push_param(&mut params, "latitude", self.location.lat);
        push_param(&mut params, "longitude", self.location.lng);
        push_param(&mut params, "timeformat", String::from_str("unixtime"));
        push_optional(
            &mut params,
            "elevation",
            match &self.elevation {
                Some(elevation) => Some(elevation.to_string()),
                None => None,
            },
        );
        push_optional(
            &mut params,
            "temperature_unit",
            match &self.temperature_unit {
                Some(unit) => Some(unit.to_string()),
                None => None,
            },
        );
        push_optional(
            &mut params,
            "windspeed_unit",
            match &self.wind_speed_unit {
                Some(unit) => Some(unit.to_string()),
                None => None,
            },
        );
        push_optional(
            &mut params,
            "precipitation_unit",
            match &self.precipitation_unit {
                Some(unit) => Some(unit.to_string()),
                None => None,
            },
        );
        push_optional(&mut params, "timezone", self.time_zone);
        push_optional(
            &mut params,
            "past_days",
            match self.past_days {
                Some(days) => Some(decimal_string(days as u64)),
                None => None,
            },
        );
        push_optional(
            &mut params,
            "forecast_minutely_15",
            match self.forecast_minutely_15 {
                Some(steps) => Some(decimal_string(steps as u64)),
                None => None,
            },
        );
        push_optional(
            &mut params,
            "forecast_days",
            match self.forecast_days {
                Some(days) => Some(decimal_string(days as u64)),
                None => None,
            },
        );
        push_optional(&mut params, "start_date", date_param(&self.start_date));
        push_optional(&mut params, "end_date", date_param(&self.end_date));
        push_list(&mut params, "current", &self.current);
        push_list(&mut params, "minutely_15", &self.minutely_15);
        push_list(&mut params, "hourly", &self.hourly);
        push_list(&mut params, "daily", &self.daily);
        match &self.models {
            Some(models) => push_list(&mut params, "models", models),
            None => {},
        }
        push_optional(
            &mut params,
            "cell_selection",
            match &self.cell_selection {
                Some(selection) => Some(selection.to_string()),
                None => None,
            },
        );
        push_optional(&mut params, "apikey", self.apikey);
        params
    }
}

} // verus!
