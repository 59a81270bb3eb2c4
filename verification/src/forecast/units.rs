//! The units and selections that a forecast request can name.

use crate::errors::{ConversionError, ConversionErrorView};
use crate::text::str_eq;
use vstd::prelude::*;
use vstd::std_specs::convert::{FromSpecImpl, TryFromSpecImpl};

verus! {

/// The outcome of a conversion, with the error by its view.
pub open spec fn conversion_view<T>(r: Result<T, ConversionError>) -> Result<
    T,
    ConversionErrorView,
> {
    match r {
        Ok(value) => Ok(value),
        Err(e) => Err(e@),
    }
}

/// The height above sea level for which values are scaled down: that of
/// the terrain model where it is `Nan`, else a number of metres, held as
/// its decimal text.
#[derive(Debug, Clone)]
pub enum Elevation {
    Nan,
    Value(String),
}

impl Elevation {
    /// The text for this elevation in a request.
    pub open spec fn text(self) -> Seq<char> {
        match self {
            Elevation::Nan => "nan"@,
            Elevation::Value(metres) => metres@,
        }
    }

    /// The text for this elevation in a request.
    pub fn to_string(&self) -> (s: String)
        ensures
            s@ == self.text(),
    {
        match self {
            Elevation::Nan => String::from_str("nan"),
            Elevation::Value(metres) => metres.clone(),
        }
    }
}

impl From<Elevation> for String {
    /// The text for the elevation in a request.
    fn from(value: Elevation) -> (s: String)
        ensures
            s@ == value.text(),
    {
        value.to_string()
    }
}

/// The contract of `from` above speaks of the text of the string. A
/// specification cannot build a `String`, so `from_spec` names none.
impl FromSpecImpl<Elevation> for String {
    open spec fn obeys_from_spec() -> bool {
        false
    }

    open spec fn from_spec(value: Elevation) -> String {
        arbitrary()
    }
}

impl TryFrom<&str> for Elevation {
    type Error = ConversionError;

    /// Reads the word `nan`; any other text is an error that holds the
    /// text.
    fn try_from(value: &str) -> (r: Result<Self, ConversionError>)
        ensures
            match r {
                Ok(elevation) => elevation == Elevation::Nan && value@ == "nan"@,
                Err(e) => value@ != "nan"@ && e@ == (ConversionErrorView::InvalidElevation {
                    elevation: value@,
                }),
            },
    {
        if str_eq(value, "nan") {
            Ok(Elevation::Nan)
        } else {
            Err(ConversionError::InvalidElevation { elevation: String::from_str(value) })
        }
    }
}

/// The contract of `try_from` above speaks of the text inside the error. A
/// specification cannot build a `String`, so `try_from_spec` names none.
impl TryFromSpecImpl<&str> for Elevation {
    open spec fn obeys_try_from_spec() -> bool {
        false
    }

    open spec fn try_from_spec(value: &str) -> Result<Self, ConversionError> {
        arbitrary()
    }
}

/// The unit of temperatures in a response.
#[derive(Debug, Clone, Copy, PartialEq, Eq, Structural)]
pub enum TemperatureUnit {
    Celsius,
    Fahrenheit,
}

impl TemperatureUnit {
    /// The word for this value in a request.
    pub open spec fn text(self) -> Seq<char> {
        match self {
            TemperatureUnit::Celsius => "celsius"@,
            TemperatureUnit::Fahrenheit => "fahrenheit"@,
        }
    }

    /// The unit that a text names, or the error for a text that names none.
    pub open spec fn parse(value: Seq<char>) -> Result<TemperatureUnit, ConversionErrorView> {
        if value == "celsius"@ {
            Ok(TemperatureUnit::Celsius)
        } else if value == "fahrenheit"@ {
            Ok(TemperatureUnit::Fahrenheit)
        } else {
            Err(ConversionErrorView::InvalidTemperatureUnit { unit: value })
        }
    }

    /// The word for this value in a request.
    pub fn to_string(&self) -> (s: String)
        ensures
            s@ == self.text(),
    {
        match self {
            TemperatureUnit::Celsius => String::from_str("celsius"),
            TemperatureUnit::Fahrenheit => String::from_str("fahrenheit"),
        }
    }
}

impl From<TemperatureUnit> for String {
    /// The word for the value in a request.
    fn from(value: TemperatureUnit) -> (s: String)
        ensures
            s@ == value.text(),
    {
        value.to_string()
    }
}

/// The contract of `from` above speaks of the text of the string. A
/// specification cannot build a `String`, so `from_spec` names none.
impl FromSpecImpl<TemperatureUnit> for String {
    open spec fn obeys_from_spec() -> bool {
        false
    }

    open spec fn from_spec(value: TemperatureUnit) -> String {
        arbitrary()
    }
}

impl TryFrom<&str> for TemperatureUnit {
    type Error = ConversionError;

    /// Reads the word of a request; any other text is an error that holds
    /// the text.
    fn try_from(value: &str) -> (r: Result<Self, ConversionError>)
        ensures
            conversion_view(r) == TemperatureUnit::parse(value@),
    {
        if str_eq(value, "celsius") {
            Ok(TemperatureUnit::Celsius)
        } else if str_eq(value, "fahrenheit") {
            Ok(TemperatureUnit::Fahrenheit)
        } else {
            Err(ConversionError::InvalidTemperatureUnit { unit: String::from_str(value) })
        }
    }
}

/// The contract of `try_from` above speaks of the text inside the error. A
/// specification cannot build a `String`, so `try_from_spec` names none.
impl TryFromSpecImpl<&str> for TemperatureUnit {
    open spec fn obeys_try_from_spec() -> bool {
        false
    }

    open spec fn try_from_spec(value: &str) -> Result<Self, ConversionError> {
        arbitrary()
    }
}

/// The unit of wind speeds in a response.
#[derive(Debug, Clone, Copy, PartialEq, Eq, Structural)]
pub enum WindSpeedUnit {
    Kmh,
    Ms,
    Mph,
    Kn,
}

impl WindSpeedUnit {
    /// The word for this value in a request.
    pub open spec fn text(self) -> Seq<char> {
        match self {
            WindSpeedUnit::Kmh => "kmh"@,
            WindSpeedUnit::Ms => "ms"@,
            WindSpeedUnit::Mph => "mph"@,
            WindSpeedUnit::Kn => "kn"@,
        }
    }

    /// The unit that a text names, or the error for a text that names none.
    pub open spec fn parse(value: Seq<char>) -> Result<WindSpeedUnit, ConversionErrorView> {
        if value == "kmh"@ {
            Ok(WindSpeedUnit::Kmh)
        } else if value == "ms"@ {
            Ok(WindSpeedUnit::Ms)
        } else if value == "mph"@ {
            Ok(WindSpeedUnit::Mph)
        } else if value == "kn"@ {
            Ok(WindSpeedUnit::Kn)
        } else {
            Err(ConversionErrorView::InvalidWindspeedUnit { unit: value })
        }
    }

    /// The word for this value in a request.
    pub fn to_string(&self) -> (s: String)
        ensures
            s@ == self.text(),
    {
        match self {
            WindSpeedUnit::Kmh => String::from_str("kmh"),
            WindSpeedUnit::Ms => String::from_str("ms"),
            WindSpeedUnit::Mph => String::from_str("mph"),
            WindSpeedUnit::Kn => String::from_str("kn"),
        }
    }
}

impl From<WindSpeedUnit> for String {
    /// The word for the value in a request.
    fn from(value: WindSpeedUnit) -> (s: String)
        ensures
            s@ == value.text(),
    {
        value.to_string()
    }
}

/// The contract of `from` above speaks of the text of the string. A
/// specification cannot build a `String`, so `from_spec` names none.
impl FromSpecImpl<WindSpeedUnit> for String {
    open spec fn obeys_from_spec() -> bool {
        false
    }

    open spec fn from_spec(value: WindSpeedUnit) -> String {
        arbitrary()
    }
}

impl TryFrom<&str> for WindSpeedUnit {
    type Error = ConversionError;

    /// Reads the word of a request; any other text is an error that holds
    /// the text.
    fn try_from(value: &str) -> (r: Result<Self, ConversionError>)
        ensures
            conversion_view(r) == WindSpeedUnit::parse(value@),
    {
        if str_eq(value, "kmh") {
            Ok(WindSpeedUnit::Kmh)
        } else if str_eq(value, "ms") {
            Ok(WindSpeedUnit::Ms)
        } else if str_eq(value, "mph") {
            Ok(WindSpeedUnit::Mph)
        } else if str_eq(value, "kn") {
            Ok(WindSpeedUnit::Kn)
        } else {
            Err(ConversionError::InvalidWindspeedUnit { unit: String::from_str(value) })
        }
    }
}

/// The contract of `try_from` above speaks of the text inside the error. A
/// specification cannot build a `String`, so `try_from_spec` names none.
impl TryFromSpecImpl<&str> for WindSpeedUnit {
    open spec fn obeys_try_from_spec() -> bool {
        false
    }

    open spec fn try_from_spec(value: &str) -> Result<Self, ConversionError> {
        arbitrary()
    }
}

/// The unit of precipitation amounts in a response.
#[derive(Debug, Clone, Copy, PartialEq, Eq, Structural)]
pub enum PrecipitationUnit {
    Millimeters,
    Inches,
}

impl PrecipitationUnit {
    /// The word for this value in a request.
    pub open spec fn text(self) -> Seq<char> {
        match self {
            PrecipitationUnit::Millimeters => "mm"@,
            PrecipitationUnit::Inches => "inch"@,
        }
    }

    /// The unit that a text names, or the error for a text that names none.
    pub open spec fn parse(value: Seq<char>) -> Result<PrecipitationUnit, ConversionErrorView> {
        if value == "mm"@ {
            Ok(PrecipitationUnit::Millimeters)
        } else if value == "inch"@ {
            Ok(PrecipitationUnit::Inches)
        } else {
            Err(ConversionErrorView::InvalidPrecipitationUnit { unit: value })
        }
    }

    /// The word for this value in a request.
    pub fn to_string(&self) -> (s: String)
        ensures
            s@ == self.text(),
    {
        match self {
            PrecipitationUnit::Millimeters => String::from_str("mm"),
            PrecipitationUnit::Inches => String::from_str("inch"),
        }
    }
}

impl From<PrecipitationUnit> for String {
    /// The word for the value in a request.
    fn from(value: PrecipitationUnit) -> (s: String)
        ensures
            s@ == value.text(),
    {
        value.to_string()
    }
}

/// The contract of `from` above speaks of the text of the string. A
/// specification cannot build a `String`, so `from_spec` names none.
impl FromSpecImpl<PrecipitationUnit> for String {
    open spec fn obeys_from_spec() -> bool {
        false
    }

    open spec fn from_spec(value: PrecipitationUnit) -> String {
        arbitrary()
    }
}

impl TryFrom<&str> for PrecipitationUnit {
    type Error = ConversionError;

    /// Reads the word of a request; any other text is an error that holds
    /// the text.
    fn try_from(value: &str) -> (r: Result<Self, ConversionError>)
        ensures
            conversion_view(r) == PrecipitationUnit::parse(value@),
    {
        if str_eq(value, "mm") {
            Ok(PrecipitationUnit::Millimeters)
        } else if str_eq(value, "inch") {
            Ok(PrecipitationUnit::Inches)
        } else {
            Err(ConversionError::InvalidPrecipitationUnit { unit: String::from_str(value) })
        }
    }
}

/// The contract of `try_from` above speaks of the text inside the error. A
/// specification cannot build a `String`, so `try_from_spec` names none.
impl TryFromSpecImpl<&str> for PrecipitationUnit {
    open spec fn obeys_try_from_spec() -> bool {
        false
    }

    open spec fn try_from_spec(value: &str) -> Result<Self, ConversionError> {
        arbitrary()
    }
}

/// How the grid cell for a place is chosen.
#[derive(Debug, Clone, Copy, PartialEq, Eq, Structural)]
pub enum CellSelection {
    Land,
    Sea,
    Nearest,
}

impl CellSelection {
    /// The word for this value in a request.
    pub open spec fn text(self) -> Seq<char> {
        match self {
            CellSelection::Land => "land"@,
            CellSelection::Sea => "sea"@,
            CellSelection::Nearest => "nearest"@,
        }
    }

    /// The selection that a text names, or the error for a text that names none.
    pub open spec fn parse(value: Seq<char>) -> Result<CellSelection, ConversionErrorView> {
        if value == "land"@ {
            Ok(CellSelection::Land)
        } else if value == "sea"@ {
            Ok(CellSelection::Sea)
        } else if value == "nearest"@ {
            Ok(CellSelection::Nearest)
        } else {
            Err(ConversionErrorView::InvalidCellSelection { selection: value })
        }
    }

    /// The word for this value in a request.
    pub fn to_string(&self) -> (s: String)
        ensures
            s@ == self.text(),
    {
        match self {
            CellSelection::Land => String::from_str("land"),
            CellSelection::Sea => String::from_str("sea"),
            CellSelection::Nearest => String::from_str("nearest"),
        }
    }
}

impl From<CellSelection> for String {
    /// The word for the value in a request.
    fn from(value: CellSelection) -> (s: String)
        ensures
            s@ == value.text(),
    {
        value.to_string()
    }
}

/// The contract of `from` above speaks of the text of the string. A
/// specification cannot build a `String`, so `from_spec` names none.
impl FromSpecImpl<CellSelection> for String {
    open spec fn obeys_from_spec() -> bool {
        false
    }

    open spec fn from_spec(value: CellSelection) -> String {
        arbitrary()
    }
}

impl TryFrom<&str> for CellSelection {
    type Error = ConversionError;

    /// Reads the word of a request; any other text is an error that holds
    /// the text.
    fn try_from(value: &str) -> (r: Result<Self, ConversionError>)
        ensures
            conversion_view(r) == CellSelection::parse(value@),
    {
        if str_eq(value, "land") {
            Ok(CellSelection::Land)
        } else if str_eq(value, "sea") {
            Ok(CellSelection::Sea)
        } else if str_eq(value, "nearest") {
            Ok(CellSelection::Nearest)
        } else {
            Err(ConversionError::InvalidCellSelection { selection: String::from_str(value) })
        }
    }
}

/// The contract of `try_from` above speaks of the text inside the error. A
/// specification cannot build a `String`, so `try_from_spec` names none.
impl TryFromSpecImpl<&str> for CellSelection {
    open spec fn obeys_try_from_spec() -> bool {
        false
    }

    open spec fn try_from_spec(value: &str) -> Result<Self, ConversionError> {
        arbitrary()
    }
}

/// The word of every value names that value again.
pub proof fn lemma_temperature_unit_text_names_it(value: TemperatureUnit)
    ensures
        TemperatureUnit::parse(value.text()) == Ok::<TemperatureUnit, ConversionErrorView>(value),
{
    reveal_strlit("celsius");
    reveal_strlit("fahrenheit");
    assert("celsius"@.len() == 7);
    assert("fahrenheit"@.len() == 10);
}

/// The word of every value names that value again.
pub proof fn lemma_wind_speed_unit_text_names_it(value: WindSpeedUnit)
    ensures
        WindSpeedUnit::parse(value.text()) == Ok::<WindSpeedUnit, ConversionErrorView>(value),
{
    reveal_strlit("kmh");
    reveal_strlit("ms");
    reveal_strlit("mph");
    reveal_strlit("kn");
    assert("kmh"@.len() == 3);
    assert("ms"@.len() == 2);
    assert("mph"@.len() == 3);
    assert("kn"@.len() == 2);
    assert("kmh"@[0] != "mph"@[0]);
    assert("ms"@[0] != "kn"@[0]);
}

/// The word of every value names that value again.
pub proof fn lemma_precipitation_unit_text_names_it(value: PrecipitationUnit)
    ensures
        PrecipitationUnit::parse(value.text()) == Ok::<PrecipitationUnit, ConversionErrorView>(value),
{
    reveal_strlit("mm");
    reveal_strlit("inch");
    assert("mm"@.len() == 2);
    assert("inch"@.len() == 4);
}

/// The word of every value names that value again.
pub proof fn lemma_cell_selection_text_names_it(value: CellSelection)
    ensures
        CellSelection::parse(value.text()) == Ok::<CellSelection, ConversionErrorView>(value),
{
    reveal_strlit("land");
    reveal_strlit("sea");
    reveal_strlit("nearest");
    assert("land"@.len() == 4);
    assert("sea"@.len() == 3);
    assert("nearest"@.len() == 7);
}

} // verus!
