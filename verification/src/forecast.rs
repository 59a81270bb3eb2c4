//! Forecast and archive requests: their options, and the reshaping of a
//! response into one record per timestamp.

pub mod facts;
pub mod options;
pub mod reshape;
pub mod units;

pub use crate::datetime::unix_time_to_naive_datetime;
pub use options::Options;
pub use reshape::{
    api_to_result, extract_times, reshape_daily, reshape_instant, reshape_series,
    ApiForecastResponse, CurrentResult, ForecastResult, ForecastResultDaily, ForecastResultHourly,
    ForecastResultItem, ForecastResultMinutely15,
};
pub use units::{CellSelection, Elevation, PrecipitationUnit, TemperatureUnit, WindSpeedUnit};
