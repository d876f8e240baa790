//! Text helpers of the setup prompts: the line shown for a city found by
//! the geocoder, and the hints beside each prompt.
use crate::text::{fixed_text, nat_text, push_fixed, push_nat};
use vstd::prelude::*;
use vstd::string::StringExecFns;

verus! {

pub fn yes_no(val: bool) -> (r: &'static str)
    ensures
        val ==> r@ == "yes"@,
        !val ==> r@ == "no"@,
{
    if val {
        "yes"
    } else {
        "no"
    }
}

/// The hint text `[current: value]`, before styling.
pub open spec fn hint_text(value: Seq<char>) -> Seq<char> {
    "[current: "@ + value + "]"@
}

/// The hint that shows a prompt's current value; the prompt styles it.
pub fn current_hint(value: &str) -> (r: String)
    ensures
        r@ == hint_text(value@),
{
    let mut s = String::from_str("[current: ");
    s.append(value);
    s.append("]");
    s
}

/// A city found by the geocoder; coordinates in ten-thousandths of a
/// degree.
pub struct GeocodingResult {
    pub name: String,
    pub latitude_e4: i32,
    pub longitude_e4: i32,
    pub country: Option<String>,
    pub admin1: Option<String>,
    pub population: Option<u64>,
    pub country_code: Option<String>,
}

/// `", " + s`.
pub open spec fn listed(s: Seq<char>) -> Seq<char> {
    ", "@ + s
}

impl GeocodingResult {
    /// The place: its name, its region unless that repeats the name, and
    /// its country (or else the country code), comma-separated.
    pub open spec fn place_text(&self) -> Seq<char> {
        let region = match self.admin1 {
            Some(a) => if a@ != self.name@ {
                listed(a@)
            } else {
                Seq::empty()
            },
            None => Seq::empty(),
        };
        let country = match self.country {
            Some(c) => listed(c@),
            None => match self.country_code {
                Some(c) => listed(c@),
                None => Seq::empty(),
            },
        };
        self.name@ + region + country
    }

    /// The place, its coordinates with four decimals, and its population
    /// when that is known and not zero.
    pub open spec fn text(&self) -> Seq<char> {
        let coords = " ("@ + fixed_text(self.latitude_e4 as int, 4) + ", "@ + fixed_text(
            self.longitude_e4 as int,
            4,
        ) + ")"@;
        let pop = match self.population {
            Some(p) => if p > 0 {
                " - pop. "@ + nat_text(p as nat)
            } else {
                Seq::empty()
            },
            None => Seq::empty(),
        };
        self.place_text() + coords + pop
    }

    /// The line shown for this result in the city list.
    pub fn to_string(&self) -> (r: String)
        ensures
            r@ == self.text(),
    {
        let mut s = String::from_str(self.name.as_str());
        let ghost g0 = s@;
        match &self.admin1 {
            Some(a) => {
                if !(*a == self.name) {
                    s.append(", ");
                    s.append(a.as_str());
                }
            },
            None => {},
        }
        let ghost g1 = s@;
        match &self.country {
            Some(c) => {
                s.append(", ");
                s.append(c.as_str());
            },
            None => match &self.country_code {
                Some(c) => {
                    s.append(", ");
                    s.append(c.as_str());
                },
                None => {},
            },
        }
        let ghost g2 = s@;
        proof {
            assert(g2 =~= self.place_text());
        }
        s.append(" (");
        push_fixed(&mut s, self.latitude_e4, 4);
        s.append(", ");
        push_fixed(&mut s, self.longitude_e4, 4);
        s.append(")");
        let ghost g3 = s@;
        match self.population {
            Some(p) => {
                if p > 0 {
                    s.append(" - pop. ");
                    push_nat(&mut s, p);
                }
            },
            None => {},
        }
        assert(s@ =~= self.text());
        s
    }
}

} // verus!
