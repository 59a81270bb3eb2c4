//! The ways in which a request or a response can be refused.

use crate::text::{decimal, decimal_string};
use vstd::prelude::*;

verus! {

/// A response whose shape the library does not accept.
#[derive(Debug)]
pub enum DecodeError {
    /// A time entry is no whole number of seconds, or names a moment
    /// outside the calendar.
    InvalidTime,
    /// The value of a parameter in a block of arrays is no array.
    NotAnArray { parameter: String },
    /// The array of a parameter is not as long as the block's array of
    /// times.
    LengthMismatch { parameter: String },
}

/// A `DecodeError` with its text as characters.
pub enum DecodeErrorView {
    InvalidTime,
    NotAnArray { parameter: Seq<char> },
    LengthMismatch { parameter: Seq<char> },
}

impl View for DecodeError {
    type V = DecodeErrorView;

    open spec fn view(&self) -> DecodeErrorView {
        match self {
            DecodeError::InvalidTime => DecodeErrorView::InvalidTime,
            DecodeError::NotAnArray { parameter } => DecodeErrorView::NotAnArray {
                parameter: parameter@,
            },
            DecodeError::LengthMismatch { parameter } => DecodeErrorView::LengthMismatch {
                parameter: parameter@,
            },
        }
    }
}

impl DecodeError {
    /// The text shown for every decode error.
    pub open spec fn spec_message() -> Seq<char> {
        "cannot decode properly json input"@
    }

    /// The text to show for this error.
    pub fn message(&self) -> (text: String)
        ensures
            text@ == Self::spec_message(),
    {
        String::from_str("cannot decode properly json input")
    }
}

/// A response that the server marked as failed.
#[derive(Debug)]
pub enum ClientError {
    /// The status code of the response and its body as text.
    InvalidResponseStatus { status_code: u16, text: String },
}

impl ClientError {
    /// The text to show for this error.
    pub open spec fn spec_message(&self) -> Seq<char> {
        match self {
            ClientError::InvalidResponseStatus { status_code, text } => "The status code '"@
                + decimal(*status_code as nat) + "' was returned: "@ + text@,
        }
    }

    /// The text to show for this error.
    pub fn message(&self) -> (text: String)
        ensures
            text@ == self.spec_message(),
    {
        match self {
            ClientError::InvalidResponseStatus { status_code, text } => {
                let mut message = String::from_str("The status code '");
                message.append(decimal_string(*status_code as u64).as_str());
                message.append("' was returned: ");
                message.append(text.as_str());
                message
            },
        }
    }
}

/// A text that names no value of the type asked for.
#[derive(Debug)]
pub enum ConversionError {
    InvalidElevation { elevation: String },
    InvalidTemperatureUnit { unit: String },
    InvalidWindspeedUnit { unit: String },
    InvalidPrecipitationUnit { unit: String },
    InvalidCellSelection { selection: String },
}

/// A `ConversionError` with its text as characters.
pub enum ConversionErrorView {
    InvalidElevation { elevation: Seq<char> },
    InvalidTemperatureUnit { unit: Seq<char> },
    InvalidWindspeedUnit { unit: Seq<char> },
    InvalidPrecipitationUnit { unit: Seq<char> },
    InvalidCellSelection { selection: Seq<char> },
}

impl View for ConversionError {
    type V = ConversionErrorView;

    open spec fn view(&self) -> ConversionErrorView {
        match self {
            ConversionError::InvalidElevation { elevation } => ConversionErrorView::InvalidElevation {
                elevation: elevation@,
            },
            ConversionError::InvalidTemperatureUnit {
                unit,
            } => ConversionErrorView::InvalidTemperatureUnit { unit: unit@ },
            ConversionError::InvalidWindspeedUnit { unit } => ConversionErrorView::InvalidWindspeedUnit {
                unit: unit@,
            },
            ConversionError::InvalidPrecipitationUnit {
                unit,
            } => ConversionErrorView::InvalidPrecipitationUnit { unit: unit@ },
            ConversionError::InvalidCellSelection {
                selection,
            } => ConversionErrorView::InvalidCellSelection { selection: selection@ },
        }
    }
}

/// A text between single quotes behind a lead.
pub open spec fn quoted(lead: Seq<char>, text: Seq<char>) -> Seq<char> {
    lead + "'"@ + text + "'"@
}

/// Puts a text between single quotes behind a lead.
fn quote(lead: &str, text: &String) -> (message: String)
    ensures
        message@ == quoted(lead@, text@),
{
    let mut message = String::from_str(lead);
    message.append("'");
    message.append(text.as_str());
    message.append("'");
    message
}

impl ConversionError {
    /// The text to show for this error.
    pub open spec fn spec_message(&self) -> Seq<char> {
        match self {
            ConversionError::InvalidElevation { elevation } => quoted(
                "Invalid elevation "@,
                elevation@,
            ),
            ConversionError::InvalidTemperatureUnit { unit } => quoted(
                "Invalid temperature unit "@,
                unit@,
            ),
            ConversionError::InvalidWindspeedUnit { unit } => quoted(
                "Invalid windspeed unit "@,
                unit@,
            ),
            ConversionError::InvalidPrecipitationUnit { unit } => quoted(
                "Invalid precipitation unit "@,
                unit@,
            ),
            ConversionError::InvalidCellSelection { selection } => quoted(
                "Invalid cell selection "@,
                selection@,
            ),
        }
    }

    /// The text to show for this error.
    pub fn message(&self) -> (text: String)
        ensures
            text@ == self.spec_message(),
    {
        match self {
            ConversionError::InvalidElevation { elevation } => quote(
                "Invalid elevation ",
                elevation,
            ),
            ConversionError::InvalidTemperatureUnit { unit } => quote(
                "Invalid temperature unit ",
                unit,
            ),
            ConversionError::InvalidWindspeedUnit { unit } => quote("Invalid windspeed unit ", unit),
            ConversionError::InvalidPrecipitationUnit { unit } => quote(
                "Invalid precipitation unit ",
                unit,
            ),
            ConversionError::InvalidCellSelection { selection } => quote(
                "Invalid cell selection ",
                selection,
            ),
        }
    }
}

} // verus!
