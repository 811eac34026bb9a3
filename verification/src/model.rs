//! The values the service speaks in: a day's counters, the rows the store
//! hands back, and a write request.

use vstd::prelude::*;

verus! {

/// One day's counters, keyed by the day's text (`YYYY-MM-DD`).
#[derive(Clone, Debug, PartialEq, Eq)]
pub struct DayCount {
    pub day: String,
    pub count: u32,
    pub right_count: u32,
}

/// A day's counters as mathematics: the key's characters and two numbers.
pub struct DayRecord {
    pub day: Seq<char>,
    pub count: nat,
    pub right_count: nat,
}

impl View for DayCount {
    type V = DayRecord;

    open spec fn view(&self) -> DayRecord {
        DayRecord {
            day: self.day@,
            count: self.count as nat,
            right_count: self.right_count as nat,
        }
    }
}

/// The counters of the current day.
#[derive(Clone, Copy, Debug, PartialEq, Eq)]
pub struct TodayCounts {
    pub count: u32,
    pub right_count: u32,
}

/// The two counter columns of a stored row. The second column may hold no
/// number.
#[derive(Clone, Copy, Debug, PartialEq, Eq)]
pub struct StoredCounts {
    pub count: u32,
    pub right_count: Option<u32>,
}

/// A stored row as the store hands it back, before any default is applied.
#[derive(Clone, Debug, PartialEq, Eq)]
pub struct StoredRow {
    pub day: String,
    pub count: u32,
    pub right_count: Option<u32>,
}

/// The body of a write request.
#[derive(Clone, Debug, PartialEq, Eq)]
pub struct SetRequest {
    pub day: String,
    pub count: u32,
    pub right_count: Option<u32>,
    pub secret: Option<String>,
}

/// The number a counter column stands for: a missing one counts as zero.
pub open spec fn counter_or_zero(column: Option<u32>) -> nat {
    match column {
        Some(n) => n as nat,
        None => 0,
    }
}

/// The characters of an optional text.
pub open spec fn optional_text(text: Option<String>) -> Option<Seq<char>> {
    match text {
        Some(s) => Some(s@),
        None => None,
    }
}

impl StoredRow {
    /// The day's counters that this row stands for.
    pub open spec fn record(&self) -> DayRecord {
        DayRecord {
            day: self.day@,
            count: self.count as nat,
            right_count: counter_or_zero(self.right_count),
        }
    }
}

impl SetRequest {
    /// The row that this request asks to be written: both counters, the
    /// second one zero when the request leaves it out.
    pub open spec fn record(&self) -> DayRecord {
        DayRecord {
            day: self.day@,
            count: self.count as nat,
            right_count: counter_or_zero(self.right_count),
        }
    }
}

} // verus!
