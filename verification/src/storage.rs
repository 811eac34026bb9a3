//! The row store: where it lives, the statements it is driven with, and how
//! the rows it hands back become responses.
//!
//! The store itself is a table `day_counts` with one row per day, keyed by
//! the day's text. This module never touches it: it names the statements and
//! turns their results into values.

use vstd::prelude::*;
use crate::model::{counter_or_zero, DayCount, StoredCounts, StoredRow, TodayCounts};

verus! {

/// The directory that exists only where the service is deployed.
pub const DEPLOY_DIRECTORY: &'static str = "/app/data";

/// Creates the table on first start and leaves an existing one alone.
pub const CREATE_TABLE: &'static str =
    "CREATE TABLE IF NOT EXISTS day_counts (day TEXT PRIMARY KEY, count INTEGER NOT NULL, right_count INTEGER DEFAULT 0)";

/// Adds the second counter to a table that was created without it.
pub const ADD_RIGHT_COUNT: &'static str =
    "ALTER TABLE day_counts ADD COLUMN right_count INTEGER DEFAULT 0";

/// Reads the two counters of the day bound to the first parameter.
pub const SELECT_DAY: &'static str = "SELECT count, right_count FROM day_counts WHERE day = ?1";

/// Reads every row, ascending by day.
pub const SELECT_HISTORY: &'static str =
    "SELECT day, count, right_count FROM day_counts ORDER BY day";

/// Writes the row bound to the three parameters, replacing both counters of
/// a day that already has a row.
pub const UPSERT_DAY: &'static str =
    "INSERT INTO day_counts (day, count, right_count) VALUES (?1, ?2, ?3) ON CONFLICT(day) DO UPDATE SET count = ?2, right_count = ?3";

/// One statement of the start-up migration.
#[derive(Clone, Copy, Debug, PartialEq, Eq)]
pub struct SchemaStep {
    /// The statement to run.
    pub statement: &'static str,
    /// Whether start-up fails when the statement does. A failure of a step
    /// that is not required is ignored.
    pub required: bool,
}

/// The file that holds the store: under the deploy directory where that
/// exists, in the working directory elsewhere.
pub fn database_path(deployed: bool) -> (path: &'static str)
    ensures
        path@ == if deployed {
            "/app/data/counts.db"@
        } else {
            "counts.db"@
        },
{
    if deployed {
        "/app/data/counts.db"
    } else {
        "counts.db"
    }
}

/// The file that pageviews are appended to: under the deploy directory where
/// that exists, in the working directory elsewhere.
pub fn pageview_log_path(deployed: bool) -> (path: &'static str)
    ensures
        path@ == if deployed {
            "/app/data/pageviews.log"@
        } else {
            "pageviews.log"@
        },
{
    if deployed {
        "/app/data/pageviews.log"
    } else {
        "pageviews.log"
    }
}

/// The start-up migration, in the order it runs: the table must be there
/// afterwards, while adding the second counter fails on every table that
/// already has it, which is why that step may fail.
pub fn ensure_schema() -> (steps: Vec<SchemaStep>)
    ensures
        steps@.len() == 2,
        steps@[0].statement@ == CREATE_TABLE@,
        steps@[0].required,
        steps@[1].statement@ == ADD_RIGHT_COUNT@,
        !steps@[1].required,
{
    let mut steps: Vec<SchemaStep> = Vec::new();
    steps.push(SchemaStep { statement: CREATE_TABLE, required: true });
    steps.push(SchemaStep { statement: ADD_RIGHT_COUNT, required: false });
    steps
}

/// The counters of the current day, from what the lookup of its key found:
/// zeros when the day has no row, and zero for a second counter that the row
/// lacks.
pub fn get_today(found: Option<StoredCounts>) -> (today: TodayCounts)
    ensures
        found is None ==> today.count == 0 && today.right_count == 0,
        found matches Some(row) ==> today.count == row.count && today.right_count
            == counter_or_zero(row.right_count),
{
    match found {
        None => TodayCounts { count: 0, right_count: 0 },
        Some(row) => TodayCounts {
            count: row.count,
            right_count: match row.right_count {
                Some(n) => n,
                None => 0,
            },
        },
    }
}

/// The history response, from the rows that the store handed back: one entry
/// per row, in the order of the rows, with zero for a second counter that a
/// row lacks.
pub fn get_history(rows: Vec<StoredRow>) -> (history: Vec<DayCount>)
    ensures
        history@.len() == rows@.len(),
        forall|i: int| 0 <= i < rows@.len() ==> (#[trigger] history@[i])@ == rows@[i].record(),
{
    let mut history: Vec<DayCount> = Vec::new();
    for row in it: rows
        invariant
            history@.len() == it.index(),
            forall|i: int| 0 <= i < history@.len() ==> (#[trigger] history@[i])@ == it.seq()[i].record(),
    {
        let right_count: u32 = match row.right_count {
            Some(n) => n,
            None => 0,
        };
        history.push(DayCount { day: row.day, count: row.count, right_count });
    }
    history
}

/// Reading back what was written applies no default: a stored row that holds
/// the day and both counters of a written row stands for exactly that row.
pub proof fn lemma_written_row_reads_back(written: DayCount, stored: StoredRow)
    requires
        stored.day@ == written.day@,
        stored.count == written.count,
        stored.right_count == Some(written.right_count),
    ensures
        stored.record() == written@,
{
}

} // verus!
