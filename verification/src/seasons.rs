//! Fixed reference temperature bands, one `{high, low}` pair per calendar
//! month. Hand-tuned climate values kept apart from the rule logic so that
//! updated climate data never touches the cascade.

use vstd::prelude::*;

verus! {

/// Reference seasonal high and low temperatures for one month.
#[derive(Clone, Copy, PartialEq, Eq, Structural)]
pub struct TempRanges {
    pub high: i32,
    pub low: i32,
}

/// The reference band for a month of the year (1 = January .. 12 = December).
pub open spec fn range_of_month(m: int) -> TempRanges {
    if m == 1 {
        TempRanges { high: 19, low: 12 }
    } else if m == 2 {
        TempRanges { high: 20, low: 13 }
    } else if m == 3 {
        TempRanges { high: 23, low: 16 }
    } else if m == 4 {
        TempRanges { high: 26, low: 19 }
    } else if m == 5 {
        TempRanges { high: 29, low: 22 }
    } else if m == 6 {
        TempRanges { high: 31, low: 24 }
    } else if m == 7 {
        TempRanges { high: 33, low: 26 }
    } else if m == 8 {
        TempRanges { high: 32, low: 26 }
    } else if m == 9 {
        TempRanges { high: 31, low: 24 }
    } else if m == 10 {
        TempRanges { high: 28, low: 22 }
    } else if m == 11 {
        TempRanges { high: 24, low: 18 }
    } else {
        TempRanges { high: 20, low: 14 }
    }
}

impl TempRanges {
    /// Looks the reference band up for a month of the year.
    pub fn from_month(m: u8) -> (r: TempRanges)
        requires
            1 <= m <= 12,
        ensures
            r == range_of_month(m as int),
    {
        match m {
            1 => TempRanges { high: 19, low: 12 },
            2 => TempRanges { high: 20, low: 13 },
            3 => TempRanges { high: 23, low: 16 },
            4 => TempRanges { high: 26, low: 19 },
            5 => TempRanges { high: 29, low: 22 },
            6 => TempRanges { high: 31, low: 24 },
            7 => TempRanges { high: 33, low: 26 },
            8 => TempRanges { high: 32, low: 26 },
            9 => TempRanges { high: 31, low: 24 },
            10 => TempRanges { high: 28, low: 22 },
            11 => TempRanges { high: 24, low: 18 },
            _ => TempRanges { high: 20, low: 14 },
        }
    }
}

} // verus!
