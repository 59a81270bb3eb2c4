//! Air-quality requests: their options, and the reshaping of a response.

use crate::datetime::NaiveDate;
use crate::errors::{DecodeError, DecodeErrorView};
use crate::forecast::options::{
    date_param, optional_date, optional_decimal, optional_text, params_view, push_list,
    push_optional, push_param, with_list, with_optional,
};
use crate::forecast::reshape::{
    current_outcome, reshape_instant, reshape_section, section_outcome, section_view, time_key,
    CurrentResult, ForecastResultHourly, RecordView,
};
use crate::forecast::units::CellSelection;
use crate::location::Location;
use crate::param_map::ParamMap;
use crate::text::decimal_string;
use vstd::prelude::*;

verus! {

/// What an air-quality request asks for. The time format is always unix
/// time.
#[derive(Debug, Clone)]
pub struct Options {
    pub location: Location,
    /// Attributes to request in hourly intervals
    pub hourly: Vec<String>,
    /// Attributes to request for the current values
    pub current: Vec<String>,
    pub domains: Option<String>,
    pub time_zone: Option<String>,
    pub past_days: Option<u8>,
    pub forecast_days: Option<u8>,
    pub forecast_hours: Option<u32>,
    pub past_hours: Option<u32>,
    pub start_date: Option<NaiveDate>,
    pub end_date: Option<NaiveDate>,
    pub cell_selection: Option<CellSelection>,
    pub apikey: Option<String>,
}

impl Default for Options {
    /// The default place, and nothing else.
    fn default() -> (options: Options)
        ensures
            options.location.lat@ == "52.52"@,
            options.location.lng@ == "13.41"@,
            options.hourly@.len() == 0,
            options.current@.len() == 0,
            options.domains.is_none(),
            options.time_zone.is_none(),
            options.past_days.is_none(),
            options.forecast_days.is_none(),
            options.forecast_hours.is_none(),
            options.past_hours.is_none(),
            options.start_date.is_none(),
            options.end_date.is_none(),
            options.cell_selection.is_none(),
            options.apikey.is_none(),
    {
        Options {
            location: Location::default(),
            hourly: Vec::new(),
            current: Vec::new(),
            domains: None,
            time_zone: None,
            past_days: None,
            forecast_days: None,
            forecast_hours: None,
            past_hours: None,
            start_date: None,
            end_date: None,
            cell_selection: None,
            apikey: None,
        }
    }
}

impl Options {
    /// The query parameters of the request, in the order in which they are
    /// sent. The place and the time format always come first; each other
    /// parameter is there where the options name a value for it, a list
    /// where it has an entry. A date that the calendar does not hold is
    /// left out.
    pub open spec fn spec_params(&self) -> Seq<(Seq<char>, Seq<char>)> {
        let p = Seq::<(Seq<char>, Seq<char>)>::empty();
        let p = p.push(("latitude"@, self.location.lat@));
        let p = p.push(("longitude"@, self.location.lng@));
        let p = p.push(("timeformat"@, "unixtime"@));
        let p = with_list(p, "hourly"@, self.hourly@);
        let p = with_list(p, "current"@, self.current@);
        let p = with_optional(p, "domains"@, optional_text(self.domains));
        let p = with_optional(p, "timezone"@, optional_text(self.time_zone));
        let p = with_optional(
            p,
            "past_days"@,
            optional_decimal(
                match self.past_days {
                    Some(days) => Some(days as nat),
                    None => None,
                },
            ),
        );
        let p = with_optional(
            p,
            "forecast_days"@,
            optional_decimal(
                match self.forecast_days {
                    Some(days) => Some(days as nat),
                    None => None,
                },
            ),
        );
        let p = with_optional(
            p,
            "forecast_hours"@,
            optional_decimal(
                match self.forecast_hours {
                    Some(hours) => Some(hours as nat),
                    None => None,
                },
            ),
        );
        let p = with_optional(
            p,
            "past_hours"@,
            optional_decimal(
                match self.past_hours {
                    Some(hours) => Some(hours as nat),
                    None => None,
                },
            ),
        );
        let p = with_optional(p, "start_date"@, optional_date(self.start_date));
        let p = with_optional(p, "end_date"@, optional_date(self.end_date));
        let p = with_optional(
            p,
            "cell_selection"@,
            match self.cell_selection {
                Some(selection) => Some(selection.text()),
                None => None,
            },
        );
        let p = with_optional(p, "apikey"@, optional_text(self.apikey));
        p
    }

    /// The query parameters of the request, in the order in which they are
    /// sent.
    pub fn to_params(self) -> (params: Vec<(String, String)>)
        ensures
            params_view(params@) == self.spec_params(),
    {
        let mut params: Vec<(String, String)> = Vec::new();
        assert(params_view(params@) =~= Seq::<(Seq<char>, Seq<char>)>::empty());
        push_param(&mut params, "latitude", self.location.lat);
        push_param(&mut params, "longitude", self.location.lng);
        push_param(&mut params, "timeformat", String::from_str("unixtime"));
        push_list(&mut params, "hourly", &self.hourly);
        push_list(&mut params, "current", &self.current);
        push_optional(&mut params, "domains", self.domains);
        push_optional(&mut params, "timezone", self.time_zone);
        push_optional(
            &mut params,
            "past_days",
            match self.past_days {
                Some(days) => Some(decimal_string(days as u64)),
                None => None,
            },
        );
        push_optional(
            &mut params,
            "forecast_days",
            match self.forecast_days {
                Some(days) => Some(decimal_string(days as u64)),
                None => None,
            },
        );
        push_optional(
            &mut params,
            "forecast_hours",
            match self.forecast_hours {
                Some(hours) => Some(decimal_string(hours as u64)),
                None => None,
            },
        );
        push_optional(
            &mut params,
            "past_hours",
            match self.past_hours {
                Some(hours) => Some(decimal_string(hours as u64)),
                None => None,
            },
        );
        push_optional(&mut params, "start_date", date_param(&self.start_date));
        push_optional(&mut params, "end_date", date_param(&self.end_date));
        push_optional(
            &mut params,
            "cell_selection",
            match &self.cell_selection {
                Some(selection) => Some(selection.to_string()),
                None => None,
            },
        );
        push_optional(&mut params, "apikey", self.apikey);
        params
    }
}

/// A decoded response to an air-quality request, as far as the library
/// reads it.
#[derive(Debug)]
pub struct ApiAirQualityResponse {
    pub utc_offset_seconds: Option<i32>,
    pub current_units: Option<ParamMap<String>>,
    pub current: Option<ParamMap<serde_json::Value>>,
    pub hourly_units: Option<ParamMap<String>>,
    pub hourly: Option<ParamMap<serde_json::Value>>,
}

/// The reshaped response to an air-quality request. A section that the
/// response does not hold is `None`.
#[derive(Debug)]
pub struct AirQualityResult {
    pub current: Option<CurrentResult>,
    pub hourly: Option<Vec<ForecastResultHourly>>,
}

/// An `AirQualityResult` with its records by their views.
pub struct AirQualityResultView {
    pub current: Option<RecordView>,
    pub hourly: Option<Seq<RecordView>>,
}

impl View for AirQualityResult {
    type V = AirQualityResultView;

    open spec fn view(&self) -> AirQualityResultView {
        AirQualityResultView {
            current: match self.current {
                Some(record) => Some(record@),
                None => None,
            },
            hourly: section_view(self.hourly),
        }
    }
}

/// What a response becomes: its two sections reshaped, or the error of the
/// first section that fails, current before hourly. The section of single
/// values is read with no offset, the hourly one with the offset of the
/// response, or zero where it names none.
pub open spec fn air_quality_outcome(api_res: ApiAirQualityResponse) -> Result<
    AirQualityResultView,
    DecodeErrorView,
> {
    let offset = crate::forecast::reshape::offset_or_zero(api_res.utc_offset_seconds);
    match current_outcome(api_res.current, api_res.current_units) {
        Err(e) => Err(e),
        Ok(current) => match section_outcome(api_res.hourly, api_res.hourly_units, offset) {
            Err(e) => Err(e),
            Ok(hourly) => Ok(AirQualityResultView { current, hourly }),
        },
    }
}

/// The outcome of reshaping a response, with the result and the error by
/// their views.
pub open spec fn air_quality_outcome_view(r: Result<AirQualityResult, DecodeError>) -> Result<
    AirQualityResultView,
    DecodeErrorView,
> {
    match r {
        Ok(result) => Ok(result@),
        Err(e) => Err(e@),
    }
}

/// Whether no record of a result has a field named `time`.
pub open spec fn no_time_field(result: AirQualityResult) -> bool {
    &&& result.current matches Some(record) ==> !record.values@.contains_key(time_key())
    &&& result.hourly matches Some(records) ==> forall|i: int|
        0 <= i < records@.len() ==> !(#[trigger] records@[i]).values@.contains_key(time_key())
}

/// Reshapes a decoded response into a result with one record per
/// timestamp. A section that fails fails the whole call.
pub fn api_to_result(api_res: &ApiAirQualityResponse) -> (r: Result<AirQualityResult, DecodeError>)
    ensures
        air_quality_outcome_view(r) == air_quality_outcome(*api_res),
        r matches Ok(result) ==> no_time_field(result),
{
    let current = match &api_res.current {
        Some(values) => match reshape_instant(values, api_res.current_units.as_ref()) {
            Ok(record) => Some(record),
            Err(e) => {
                return Err(e);
            },
        },
        None => None,
    };
    let utc_offset_seconds: i32 = match api_res.utc_offset_seconds {
        Some(offset) => offset,
        None => 0,
    };
    let hourly = match reshape_section(&api_res.hourly, &api_res.hourly_units, utc_offset_seconds) {
        Ok(section) => section,
        Err(e) => {
            return Err(e);
        },
    };
    Ok(AirQualityResult { current, hourly })
}

/// A section that the response does not hold is absent from the result.
pub proof fn lemma_absent_section_stays_absent(api_res: ApiAirQualityResponse)
    ensures
        air_quality_outcome(api_res) matches Ok(result) ==> {
            &&& api_res.current.is_none() ==> result.current.is_none()
            &&& api_res.hourly.is_none() ==> result.hourly.is_none()
        },
{
}

/// A section that fails makes the whole response fail.
pub proof fn lemma_failed_section_fails_the_response(api_res: ApiAirQualityResponse)
    requires
        current_outcome(api_res.current, api_res.current_units).is_err() || section_outcome(
            api_res.hourly,
            api_res.hourly_units,
            crate::forecast::reshape::offset_or_zero(api_res.utc_offset_seconds),
        ).is_err(),
    ensures
        air_quality_outcome(api_res).is_err(),
{
}

/// Reshaping one response twice gives equal outcomes: two results that
/// `api_to_result` may return for a response have the same view.
pub proof fn lemma_reshaping_is_repeatable(
    api_res: ApiAirQualityResponse,
    first: Result<AirQualityResult, DecodeError>,
    second: Result<AirQualityResult, DecodeError>,
)
    requires
        air_quality_outcome_view(first) == air_quality_outcome(api_res),
        air_quality_outcome_view(second) == air_quality_outcome(api_res),
    ensures
        air_quality_outcome_view(first) == air_quality_outcome_view(second),
        first matches Ok(a) ==> second matches Ok(b) && a@ == b@,
        first matches Err(a) ==> second matches Err(b) && a@ == b@,
{
}

} // verus!
