use chrono::{Datelike, Timelike};
use open_meteo_rs::datetime::{NaiveDate, NaiveDateTime};
use open_meteo_rs::errors::DecodeError;
use open_meteo_rs::forecast::{
    api_to_result, extract_times, reshape_daily, reshape_instant, reshape_series,
    ApiForecastResponse,
};
use open_meteo_rs::param_map::ParamMap;
use serde_json::Value;

fn at(year: i32, month: u32, day: u32, hour: u32, minute: u32, second: u32) -> NaiveDateTime {
    NaiveDateTime { date: NaiveDate { year, month, day }, hour, minute, second }
}

fn by_chrono(millis: i64) -> NaiveDateTime {
    let n = chrono::DateTime::from_timestamp_millis(millis).unwrap().naive_utc();
    at(n.year(), n.month(), n.day(), n.hour(), n.minute(), n.second())
}

fn values_of(entries: Vec<(&str, Value)>) -> ParamMap<Value> {
    let mut map = ParamMap::new();
    for (key, value) in entries {
        map.insert(key.to_string(), value);
    }
    map
}

fn units_of(entries: Vec<(&str, &str)>) -> ParamMap<String> {
    let mut map = ParamMap::new();
    for (key, unit) in entries {
        map.insert(key.to_string(), unit.to_string());
    }
    map
}

fn empty_response() -> ApiForecastResponse {
    ApiForecastResponse {
        utc_offset_seconds: None,
        current_units: None,
        current: None,
        minutely_15_units: None,
        minutely_15: None,
        hourly_units: None,
        hourly: None,
        daily_units: None,
        daily: None,
    }
}

#[test]
fn series_round_trip_with_offset() {
    let values = values_of(vec![
        ("time", Value::from(vec![1000, 2000])),
        ("temperature_2m", Value::from(vec![10.0, 11.0])),
    ]);
    let units = units_of(vec![("temperature_2m", "°C")]);
    let times = extract_times(&values, 3600).unwrap().unwrap();
    assert_eq!(times, vec![by_chrono((1000 + 3600) * 1000), by_chrono((2000 + 3600) * 1000)]);
    assert_eq!(times[0], at(1970, 1, 1, 1, 16, 40));
    let records = reshape_series(&values, &units, &times).unwrap();
    assert_eq!(records.len(), 2);
    assert_eq!(records[0].datetime, by_chrono(4_600_000));
    assert_eq!(records[0].values.len(), 1);
    let item = records[0].values.get("temperature_2m").unwrap();
    assert_eq!(item.value, Value::from(10.0));
    assert_eq!(item.unit, Some("°C".to_string()));
    let item = records[1].values.get("temperature_2m").unwrap();
    assert_eq!(item.value, Value::from(11.0));
    assert_eq!(records[1].datetime, at(1970, 1, 1, 1, 33, 20));
    assert!(!records[0].values.contains_key("time"));
}

#[test]
fn instant_reshape_without_offset() {
    let values =
        values_of(vec![("time", Value::from(500)), ("temperature_2m", Value::from(9.5))]);
    let record = reshape_instant(&values, None).unwrap();
    assert_eq!(record.datetime, by_chrono(500 * 1000));
    assert_eq!(record.datetime, at(1970, 1, 1, 0, 8, 20));
    assert_eq!(record.values.get("temperature_2m").unwrap().value, Value::from(9.5));
    assert_eq!(record.values.get("temperature_2m").unwrap().unit, None);
    assert!(!record.values.contains_key("time"));
    assert_eq!(record.values.len(), 1);
}

#[test]
fn missing_unit_is_absent_not_an_error() {
    let values = values_of(vec![
        ("time", Value::from(vec![0])),
        ("rain", Value::from(vec![0.5])),
        ("snowfall", Value::from(vec![1.5])),
    ]);
    let units = units_of(vec![("rain", "mm")]);
    let times = extract_times(&values, 0).unwrap().unwrap();
    let records = reshape_series(&values, &units, &times).unwrap();
    assert_eq!(records.len(), 1);
    assert_eq!(records[0].values.get("rain").unwrap().unit, Some("mm".to_string()));
    let snowfall = records[0].values.get("snowfall").unwrap();
    assert_eq!(snowfall.unit, None);
    assert_eq!(snowfall.value, Value::from(1.5));
}

#[test]
fn length_mismatch_is_a_decode_error() {
    let values = values_of(vec![
        ("time", Value::from(vec![0, 3600])),
        ("rain", Value::from(vec![0.5])),
    ]);
    let units = units_of(vec![("rain", "mm")]);
    let times = extract_times(&values, 0).unwrap().unwrap();
    match reshape_series(&values, &units, &times) {
        Err(DecodeError::LengthMismatch { parameter }) => assert_eq!(parameter, "rain"),
        other => panic!("unexpected outcome: {:?}", other),
    }
    let mut response = empty_response();
    response.hourly = Some(values);
    response.hourly_units = Some(units);
    assert!(matches!(api_to_result(&response), Err(DecodeError::LengthMismatch { .. })));
}

#[test]
fn absent_section_stays_absent() {
    let mut response = empty_response();
    response.hourly = Some(values_of(vec![
        ("time", Value::from(vec![0])),
        ("rain", Value::from(vec![0.5])),
    ]));
    response.hourly_units = Some(units_of(vec![("rain", "mm")]));
    let result = api_to_result(&response).unwrap();
    assert!(result.current.is_none());
    assert!(result.minutely_15.is_none());
    assert!(result.daily.is_none());
    assert_eq!(result.hourly.unwrap().len(), 1);
}

#[test]
fn daily_records_carry_the_date() {
    let values = values_of(vec![
        ("time", Value::from(vec![86_400, 172_800])),
        ("temperature_2m_max", Value::from(vec![20.5, 21.5])),
    ]);
    let units = units_of(vec![("temperature_2m_max", "°C")]);
    let times = extract_times(&values, 7200).unwrap().unwrap();
    let records = reshape_daily(&values, &units, &times).unwrap();
    assert_eq!(records.len(), 2);
    assert_eq!(records[0].date, NaiveDate { year: 1970, month: 1, day: 2 });
    assert_eq!(records[1].date, NaiveDate { year: 1970, month: 1, day: 3 });
    assert_eq!(records[1].values.get("temperature_2m_max").unwrap().value, Value::from(21.5));
}

#[test]
fn block_without_time_has_no_times() {
    let values = values_of(vec![("rain", Value::from(vec![0.5]))]);
    assert_eq!(extract_times(&values, 0).unwrap(), None);
}

#[test]
fn time_that_is_no_array_has_no_times() {
    let values = values_of(vec![("time", Value::from(500)), ("rain", Value::from(0.5))]);
    assert_eq!(extract_times(&values, 0).unwrap(), None);
}

#[test]
fn empty_time_array_gives_no_records() {
    let values = values_of(vec![
        ("time", Value::from(Vec::<i64>::new())),
        ("rain", Value::from(Vec::<f64>::new())),
    ]);
    let units = units_of(vec![("rain", "mm")]);
    let times = extract_times(&values, 0).unwrap().unwrap();
    assert_eq!(times.len(), 0);
    let records = reshape_series(&values, &units, &times).unwrap();
    assert_eq!(records.len(), 0);
}

#[test]
fn times_keep_their_order() {
    let values = values_of(vec![("time", Value::from(vec![7200, 0, 3600, 0]))]);
    let times = extract_times(&values, 0).unwrap().unwrap();
    assert_eq!(
        times,
        vec![
            at(1970, 1, 1, 2, 0, 0),
            at(1970, 1, 1, 0, 0, 0),
            at(1970, 1, 1, 1, 0, 0),
            at(1970, 1, 1, 0, 0, 0)
        ]
    );
}

#[test]
fn negative_offset_moves_times_back() {
    let values = values_of(vec![("time", Value::from(vec![0]))]);
    let times = extract_times(&values, -18_000).unwrap().unwrap();
    assert_eq!(times, vec![at(1969, 12, 31, 19, 0, 0)]);
    assert_eq!(times[0], by_chrono(-18_000_000));
}

#[test]
fn time_element_that_is_no_integer_is_invalid() {
    let values = values_of(vec![(
        "time",
        Value::from(vec![Value::from(0), Value::from("1970-01-01T01:00")]),
    )]);
    assert!(matches!(extract_times(&values, 0), Err(DecodeError::InvalidTime)));
    let values = values_of(vec![("time", Value::from(vec![1.5]))]);
    assert!(matches!(extract_times(&values, 0), Err(DecodeError::InvalidTime)));
    let values = values_of(vec![("time", Value::from(vec![Value::Null]))]);
    assert!(matches!(extract_times(&values, 0), Err(DecodeError::InvalidTime)));
    let values = values_of(vec![("time", Value::from(vec![u64::MAX]))]);
    assert!(matches!(extract_times(&values, 0), Err(DecodeError::InvalidTime)));
}

#[test]
fn time_outside_the_calendar_is_invalid() {
    let values = values_of(vec![("time", Value::from(vec![i64::MAX]))]);
    assert!(matches!(extract_times(&values, 0), Err(DecodeError::InvalidTime)));
    assert!(matches!(extract_times(&values, 1), Err(DecodeError::InvalidTime)));
    let values = values_of(vec![("time", Value::from(vec![i64::MAX / 1000]))]);
    assert!(matches!(extract_times(&values, 0), Err(DecodeError::InvalidTime)));
    let values = values_of(vec![("time", Value::from(i64::MIN))]);
    assert!(matches!(reshape_instant(&values, None), Err(DecodeError::InvalidTime)));
}

#[test]
fn parameter_that_is_no_array_is_named() {
    let values = values_of(vec![
        ("time", Value::from(vec![0])),
        ("rain", Value::from(vec![0.5])),
        ("snowfall", Value::from(1.5)),
    ]);
    let units = units_of(vec![]);
    let times = extract_times(&values, 0).unwrap().unwrap();
    match reshape_series(&values, &units, &times) {
        Err(DecodeError::NotAnArray { parameter }) => assert_eq!(parameter, "snowfall"),
        other => panic!("unexpected outcome: {:?}", other),
    }
    match reshape_daily(&values, &units, &times) {
        Err(DecodeError::NotAnArray { parameter }) => assert_eq!(parameter, "snowfall"),
        other => panic!("unexpected outcome: {:?}", other),
    }
}

#[test]
fn first_faulty_parameter_wins() {
    let values = values_of(vec![
        ("rain", Value::from(vec![0.5, 0.25, 0.125])),
        ("time", Value::from(vec![0, 3600])),
        ("snowfall", Value::from(1.5)),
    ]);
    let units = units_of(vec![]);
    let times = extract_times(&values, 0).unwrap().unwrap();
    match reshape_series(&values, &units, &times) {
        Err(DecodeError::LengthMismatch { parameter }) => assert_eq!(parameter, "rain"),
        other => panic!("unexpected outcome: {:?}", other),
    }
}

#[test]
fn faulty_block_without_times_is_still_refused() {
    let values = values_of(vec![("rain", Value::from(1.5))]);
    let units = units_of(vec![]);
    assert!(matches!(
        reshape_series(&values, &units, &Vec::new()),
        Err(DecodeError::NotAnArray { .. })
    ));
}

#[test]
fn values_pass_through_unchanged() {
    let nested = Value::from(vec![Value::from("a"), Value::Null, Value::from(true)]);
    let values = values_of(vec![
        ("time", Value::from(vec![0, 60])),
        ("weathercode", Value::from(vec![Value::from(3), nested.clone()])),
        ("note", Value::from(vec![Value::Null, Value::from("fog")])),
    ]);
    let units = units_of(vec![("weathercode", "wmo code")]);
    let times = extract_times(&values, 0).unwrap().unwrap();
    let records = reshape_series(&values, &units, &times).unwrap();
    assert_eq!(records[0].values.get("weathercode").unwrap().value, Value::from(3));
    assert_eq!(records[1].values.get("weathercode").unwrap().value, nested);
    assert_eq!(records[0].values.get("note").unwrap().value, Value::Null);
    assert_eq!(records[1].values.get("note").unwrap().value, Value::from("fog"));
    assert_eq!(records[1].values.len(), 2);
    assert_eq!(records[1].values.key_at(0), "weathercode");
    assert_eq!(records[1].values.key_at(1), "note");
}

#[test]
fn instant_block_without_time_is_at_the_epoch() {
    let values = values_of(vec![("ozone", Value::from(41.0))]);
    let units = units_of(vec![("ozone", "μg/m³")]);
    let record = reshape_instant(&values, Some(&units)).unwrap();
    assert_eq!(record.datetime, at(1970, 1, 1, 0, 0, 0));
    assert_eq!(record.datetime, NaiveDateTime::default());
    let ozone = record.values.get("ozone").unwrap();
    assert_eq!(ozone.unit, Some("μg/m³".to_string()));
    assert_eq!(ozone.value, Value::from(41.0));
}

#[test]
fn instant_time_that_is_no_integer_is_invalid() {
    let values =
        values_of(vec![("temperature_2m", Value::from(9.5)), ("time", Value::from("now"))]);
    assert!(matches!(reshape_instant(&values, None), Err(DecodeError::InvalidTime)));
    let values = values_of(vec![("time", Value::from(vec![500]))]);
    assert!(matches!(reshape_instant(&values, None), Err(DecodeError::InvalidTime)));
}

fn full_response() -> ApiForecastResponse {
    ApiForecastResponse {
        utc_offset_seconds: Some(7200),
        current_units: Some(units_of(vec![("temperature_2m", "°C")])),
        current: Some(values_of(vec![
            ("time", Value::from(1_700_000_000)),
            ("interval", Value::from(900)),
            ("temperature_2m", Value::from(4.5)),
        ])),
        minutely_15_units: Some(units_of(vec![("windspeed_10m", "km/h")])),
        minutely_15: Some(values_of(vec![
            ("time", Value::from(vec![1_700_000_000, 1_700_000_900])),
            ("windspeed_10m", Value::from(vec![12.5, 13.0])),
        ])),
        hourly_units: Some(units_of(vec![("temperature_2m", "°C")])),
        hourly: Some(values_of(vec![
            ("time", Value::from(vec![1_700_000_000, 1_700_003_600, 1_700_007_200])),
            ("temperature_2m", Value::from(vec![4.5, 4.0, 3.5])),
        ])),
        daily_units: Some(units_of(vec![("temperature_2m_max", "°C")])),
        daily: Some(values_of(vec![
            ("time", Value::from(vec![1_699_999_200])),
            ("temperature_2m_max", Value::from(vec![8.5])),
        ])),
    }
}

#[test]
fn response_is_reshaped_section_by_section() {
    let result = api_to_result(&full_response()).unwrap();
    let current = result.current.unwrap();
    assert_eq!(current.datetime, at(2023, 11, 14, 22, 13, 20));
    assert_eq!(current.datetime, by_chrono(1_700_000_000_000));
    assert_eq!(current.values.len(), 2);
    assert_eq!(current.values.get("interval").unwrap().value, Value::from(900));
    assert_eq!(current.values.get("interval").unwrap().unit, None);
    assert_eq!(current.values.get("temperature_2m").unwrap().unit, Some("°C".to_string()));
    let minutely_15 = result.minutely_15.unwrap();
    assert_eq!(minutely_15.len(), 2);
    assert_eq!(minutely_15[0].datetime, at(2023, 11, 15, 0, 13, 20));
    assert_eq!(minutely_15[1].datetime, at(2023, 11, 15, 0, 28, 20));
    assert_eq!(minutely_15[1].values.get("windspeed_10m").unwrap().value, Value::from(13.0));
    let hourly = result.hourly.unwrap();
    assert_eq!(hourly.len(), 3);
    assert_eq!(hourly[2].datetime, by_chrono((1_700_007_200 + 7200) * 1000));
    assert_eq!(hourly[2].values.get("temperature_2m").unwrap().value, Value::from(3.5));
    let daily = result.daily.unwrap();
    assert_eq!(daily.len(), 1);
    assert_eq!(daily[0].date, NaiveDate { year: 2023, month: 11, day: 15 });
    assert_eq!(daily[0].values.get("temperature_2m_max").unwrap().value, Value::from(8.5));
    assert_eq!(daily[0].values.get("temperature_2m_max").unwrap().unit, Some("°C".to_string()));
}

#[test]
fn offset_defaults_to_zero() {
    let mut response = empty_response();
    response.hourly = Some(values_of(vec![("time", Value::from(vec![3600]))]));
    response.hourly_units = Some(units_of(vec![]));
    let result = api_to_result(&response).unwrap();
    assert_eq!(result.hourly.unwrap()[0].datetime, at(1970, 1, 1, 1, 0, 0));
}

#[test]
fn section_without_units_is_absent() {
    let mut response = full_response();
    response.hourly_units = None;
    response.daily_units = None;
    let result = api_to_result(&response).unwrap();
    assert!(result.hourly.is_none());
    assert!(result.daily.is_none());
    assert_eq!(result.minutely_15.unwrap().len(), 2);
    assert!(result.current.is_some());
}

#[test]
fn current_section_without_units_is_kept() {
    let mut response = full_response();
    response.current_units = None;
    let current = api_to_result(&response).unwrap().current.unwrap();
    assert_eq!(current.values.get("temperature_2m").unwrap().unit, None);
    assert_eq!(current.values.get("temperature_2m").unwrap().value, Value::from(4.5));
}

#[test]
fn section_without_time_array_is_absent() {
    let mut response = full_response();
    response.hourly = Some(values_of(vec![("temperature_2m", Value::from(vec![4.5]))]));
    response.daily = Some(values_of(vec![("time", Value::from(0))]));
    let result = api_to_result(&response).unwrap();
    assert!(result.hourly.is_none());
    assert!(result.daily.is_none());
}

#[test]
fn faulty_time_counts_before_absent_units() {
    let mut response = full_response();
    response.daily = Some(values_of(vec![("time", Value::from(vec![0.5]))]));
    response.daily_units = None;
    assert!(matches!(api_to_result(&response), Err(DecodeError::InvalidTime)));
}

#[test]
fn one_failed_section_fails_the_response() {
    let mut response = full_response();
    response.daily = Some(values_of(vec![
        ("time", Value::from(vec![0])),
        ("temperature_2m_max", Value::from(vec![8.5, 9.5])),
    ]));
    match api_to_result(&response) {
        Err(DecodeError::LengthMismatch { parameter }) => {
            assert_eq!(parameter, "temperature_2m_max")
        }
        other => panic!("unexpected outcome: {:?}", other),
    }
    let mut response = full_response();
    response.current = Some(values_of(vec![("time", Value::Null)]));
    assert!(matches!(api_to_result(&response), Err(DecodeError::InvalidTime)));
}

#[test]
fn earlier_section_fails_first() {
    let mut response = full_response();
    response.minutely_15 = Some(values_of(vec![
        ("time", Value::from(vec![0])),
        ("windspeed_10m", Value::from(12.5)),
    ]));
    response.hourly = Some(values_of(vec![("time", Value::from(vec![Value::Null]))]));
    assert!(matches!(api_to_result(&response), Err(DecodeError::NotAnArray { .. })));
}

#[test]
fn reshaping_twice_gives_equal_results() {
    let response = full_response();
    let first = api_to_result(&response).unwrap();
    let second = api_to_result(&response).unwrap();
    assert_eq!(format!("{:?}", first), format!("{:?}", second));
    let mut broken = full_response();
    broken.hourly = Some(values_of(vec![
        ("time", Value::from(vec![0])),
        ("rain", Value::Null),
    ]));
    assert_eq!(
        format!("{:?}", api_to_result(&broken)),
        format!("{:?}", api_to_result(&broken))
    );
}

#[test]
fn no_record_has_a_time_field() {
    let result = api_to_result(&full_response()).unwrap();
    assert!(!result.current.unwrap().values.contains_key("time"));
    for record in result.minutely_15.unwrap() {
        assert!(!record.values.contains_key("time"));
    }
    for record in result.hourly.unwrap() {
        assert!(!record.values.contains_key("time"));
        assert_eq!(record.values.len(), 1);
    }
    for record in result.daily.unwrap() {
        assert!(!record.values.contains_key("time"));
    }
}

#[test]
fn decode_error_has_one_message() {
    assert_eq!(DecodeError::InvalidTime.message(), "cannot decode properly json input");
    let error = DecodeError::NotAnArray { parameter: "rain".to_string() };
    assert_eq!(error.message(), "cannot decode properly json input");
    let error = DecodeError::LengthMismatch { parameter: "rain".to_string() };
    assert_eq!(error.message(), "cannot decode properly json input");
}
