//! Typed requests and time-indexed results for the Open-Meteo weather API.
//!
//! The crate builds the query parameters of a request from typed options and
//! reshapes a decoded response, which stores one array per weather parameter,
//! into one record per timestamp.

pub mod air_quality;
pub mod client;
pub mod datetime;
pub mod errors;
pub mod forecast;
pub mod geocoding;
pub mod json;
pub mod location;
pub mod param_map;
pub mod text;

pub use client::Client;
pub use errors::{ClientError, ConversionError, DecodeError};
pub use location::Location;
