//! The place that a request asks about.

use vstd::prelude::*;

verus! {

/// A place on earth. Each coordinate is held as the decimal text of its
/// degrees, as it goes into a request.
#[derive(Debug, Clone)]
pub struct Location {
    pub lat: String,
    pub lng: String,
}

impl Default for Location {
    /// The centre of Berlin.
    fn default() -> (location: Location)
        ensures
            location.lat@ == "52.52"@,
            location.lng@ == "13.41"@,
    {
        Location { lat: String::from_str("52.52"), lng: String::from_str("13.41") }
    }
}

} // verus!
