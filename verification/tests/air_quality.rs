use open_meteo_rs::air_quality::{api_to_result, ApiAirQualityResponse, Options};
use open_meteo_rs::datetime::{NaiveDate, NaiveDateTime};
use open_meteo_rs::errors::DecodeError;
use open_meteo_rs::forecast::CellSelection;
use open_meteo_rs::param_map::ParamMap;
use open_meteo_rs::Location;
use serde_json::Value;

fn pair(key: &str, value: &str) -> (String, String) {
    (key.to_string(), value.to_string())
}

fn air_values(entries: Vec<(&str, Value)>) -> ParamMap<Value> {
    let mut map = ParamMap::new();
    for (key, value) in entries {
        map.insert(key.to_string(), value);
    }
    map
}

fn air_units(entries: Vec<(&str, &str)>) -> ParamMap<String> {
    let mut map = ParamMap::new();
    for (key, unit) in entries {
        map.insert(key.to_string(), unit.to_string());
    }
    map
}

#[test]
fn air_quality_default_params() {
    let params = Options::default().to_params();
    assert_eq!(
        params,
        vec![pair("latitude", "52.52"), pair("longitude", "13.41"), pair("timeformat", "unixtime")]
    );
}

#[test]
fn air_quality_params_in_order() {
    let options = Options {
        location: Location { lat: "48.864716".to_string(), lng: "2.349014".to_string() },
        hourly: vec!["ozone".to_string(), "dust".to_string()],
        current: vec!["sulphur_dioxide".to_string()],
        domains: Some("cams_europe".to_string()),
        time_zone: Some("Europe/Paris".to_string()),
        past_days: Some(2),
        forecast_days: Some(5),
        forecast_hours: Some(4_000_000_000),
        past_hours: Some(0),
        start_date: Some(NaiveDate { year: 2023, month: 5, day: 1 }),
        end_date: Some(NaiveDate { year: 2023, month: 12, day: 31 }),
        cell_selection: Some(CellSelection::Sea),
        apikey: Some("k3y".to_string()),
    };
    assert_eq!(
        options.to_params(),
        vec![
            pair("latitude", "48.864716"),
            pair("longitude", "2.349014"),
            pair("timeformat", "unixtime"),
            pair("hourly", "ozone,dust"),
            pair("current", "sulphur_dioxide"),
            pair("domains", "cams_europe"),
            pair("timezone", "Europe/Paris"),
            pair("past_days", "2"),
            pair("forecast_days", "5"),
            pair("forecast_hours", "4000000000"),
            pair("past_hours", "0"),
            pair("start_date", "2023-05-01"),
            pair("end_date", "2023-12-31"),
            pair("cell_selection", "sea"),
            pair("apikey", "k3y"),
        ]
    );
}

#[test]
fn air_quality_response_is_reshaped() {
    let response = ApiAirQualityResponse {
        utc_offset_seconds: Some(3600),
        current_units: Some(air_units(vec![("sulphur_dioxide", "μg/m³")])),
        current: Some(air_values(vec![
            ("time", Value::from(1000)),
            ("sulphur_dioxide", Value::from(0.75)),
        ])),
        hourly_units: Some(air_units(vec![("ozone", "μg/m³")])),
        hourly: Some(air_values(vec![
            ("time", Value::from(vec![1000, 4600])),
            ("ozone", Value::from(vec![41.0, 42.0])),
            ("dust", Value::from(vec![1.0, 2.0])),
        ])),
    };
    let result = api_to_result(&response).unwrap();
    let current = result.current.unwrap();
    assert_eq!(
        current.datetime,
        NaiveDateTime {
            date: NaiveDate { year: 1970, month: 1, day: 1 },
            hour: 0,
            minute: 16,
            second: 40
        }
    );
    assert_eq!(current.values.get("sulphur_dioxide").unwrap().value, Value::from(0.75));
    let hourly = result.hourly.unwrap();
    assert_eq!(hourly.len(), 2);
    assert_eq!(hourly[0].datetime.hour, 1);
    assert_eq!(hourly[0].datetime.minute, 16);
    assert_eq!(hourly[1].datetime.hour, 2);
    assert_eq!(hourly[1].values.len(), 2);
    assert_eq!(hourly[1].values.get("ozone").unwrap().value, Value::from(42.0));
    assert_eq!(hourly[1].values.get("ozone").unwrap().unit, Some("μg/m³".to_string()));
    assert_eq!(hourly[1].values.get("dust").unwrap().value, Value::from(2.0));
    assert_eq!(hourly[1].values.get("dust").unwrap().unit, None);
}

#[test]
fn air_quality_sections_can_be_absent_or_fail() {
    let response = ApiAirQualityResponse {
        utc_offset_seconds: None,
        current_units: None,
        current: None,
        hourly_units: None,
        hourly: None,
    };
    let result = api_to_result(&response).unwrap();
    assert!(result.current.is_none());
    assert!(result.hourly.is_none());
    let response = ApiAirQualityResponse {
        utc_offset_seconds: None,
        current_units: None,
        current: None,
        hourly_units: Some(air_units(vec![])),
        hourly: Some(air_values(vec![
            ("time", Value::from(vec![0, 3600])),
            ("ozone", Value::from(41.0)),
        ])),
    };
    match api_to_result(&response) {
        Err(DecodeError::NotAnArray { parameter }) => assert_eq!(parameter, "ozone"),
        other => panic!("unexpected outcome: {:?}", other),
    }
}
