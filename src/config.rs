//! Settings of the location shown in the status line.
use vstd::prelude::*;
use vstd::string::StringExecFns;

verus! {

/// How the location is shown.
#[derive(Clone, Copy, PartialEq, Eq, Structural, Debug, Default)]
pub enum LocationDisplay {
    #[default]
    Coordinates,
    City,
    Mixed,
}

/// The language asked of the reverse geocoder for city names: "auto", the
/// service's own choice.
pub fn default_city_name_language() -> (r: String)
    ensures
        r@ == "auto"@,
{
    String::from_str("auto")
}

} // verus!
