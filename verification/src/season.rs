//! The closed set of seasons and its stable string mappings.

use vstd::prelude::*;

use crate::text::str_eq;

verus! {

/// A season of the year, or `Unknown` when the upstream record carries none.
#[derive(Clone, Copy, Debug, PartialEq, Eq, Structural)]
pub enum Season {
    Fall,
    Spring,
    Summer,
    Winter,
    Unknown,
}

/// The canonical name of a season; the unknown season renders as the literal
/// token `"None"`.
pub open spec fn season_name_chars(s: Season) -> Seq<char> {
    match s {
        Season::Winter => "Winter"@,
        Season::Spring => "Spring"@,
        Season::Summer => "Summer"@,
        Season::Fall => "Fall"@,
        Season::Unknown => "None"@,
    }
}

/// The season denoted by an upstream token, if the token is recognized. The
/// mapping is case-sensitive and closed: `"NONE"` maps to the unknown season
/// and every token outside the table is rejected.
pub open spec fn season_of_token(t: Seq<char>) -> Option<Season> {
    if t == "WINTER"@ {
        Some(Season::Winter)
    } else if t == "SPRING"@ {
        Some(Season::Spring)
    } else if t == "SUMMER"@ {
        Some(Season::Summer)
    } else if t == "FALL"@ {
        Some(Season::Fall)
    } else if t == "NONE"@ {
        Some(Season::Unknown)
    } else {
        None
    }
}

impl Season {
    /// The canonical name of this season.
    pub fn name(&self) -> (r: String)
        ensures
            r@ == season_name_chars(*self),
    {
        match self {
            Season::Winter => String::from_str("Winter"),
            Season::Spring => String::from_str("Spring"),
            Season::Summer => String::from_str("Summer"),
            Season::Fall => String::from_str("Fall"),
            Season::Unknown => String::from_str("None"),
        }
    }

    /// Maps an upstream token to its season; `None` for a token outside the
    /// fixed table.
    pub fn from_token(t: &str) -> (r: Option<Season>)
        ensures
            r == season_of_token(t@),
    {
        if str_eq(t, "WINTER") {
            Some(Season::Winter)
        } else if str_eq(t, "SPRING") {
            Some(Season::Spring)
        } else if str_eq(t, "SUMMER") {
            Some(Season::Summer)
        } else if str_eq(t, "FALL") {
            Some(Season::Fall)
        } else if str_eq(t, "NONE") {
            Some(Season::Unknown)
        } else {
            None
        }
    }
}

} // verus!
