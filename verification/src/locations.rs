//! Choosing the recorded locations that a query for a time span returns.
//!
//! A query names its span by two optional dates; the stored rows are found again
//! by their index, and a row is kept when its timestamp lies within the span.
use vstd::prelude::*;
use crate::datetime::{
    date_to_unixts, naive_datetime_parse_from_str, date_format, DateTime,
    lemma_epoch_seconds_preserves_order,
};

verus! {

/// The start date a query uses when it gives none.
pub open spec fn default_start_date() -> Seq<char> {
    "1970-01-01 00:00:00"@
}

/// The end date a query uses when it gives none.
pub open spec fn default_end_date() -> Seq<char> {
    "2030-01-01 00:00:00"@
}

/// The start date a query asks for, or the default one.
pub open spec fn chosen_start_date(start_date: Option<String>) -> Seq<char> {
    match start_date {
        Some(d) => d@,
        None => default_start_date(),
    }
}

/// The end date a query asks for, or the default one.
pub open spec fn chosen_end_date(end_date: Option<String>) -> Seq<char> {
    match end_date {
        Some(d) => d@,
        None => default_end_date(),
    }
}

/// The timestamp of a date as `date_to_unixts` reads it, where it reads.
pub open spec fn date_timestamp(date: Seq<char>) -> Option<int> {
    match naive_datetime_parse_from_str(date, date_format()) {
        Some(dt) => Some(dt.epoch_seconds()),
        None => None,
    }
}

/// The given start date, or `1970-01-01 00:00:00` where none is given.
pub fn start_date_or_default(start_date: Option<String>) -> (date: String)
    ensures
        date@ == chosen_start_date(start_date),
{
    match start_date {
        Some(d) => d,
        None => "1970-01-01 00:00:00".to_owned(),
    }
}

/// The given end date, or `2030-01-01 00:00:00` where none is given.
pub fn end_date_or_default(end_date: Option<String>) -> (date: String)
    ensures
        date@ == chosen_end_date(end_date),
{
    match end_date {
        Some(d) => d,
        None => "2030-01-01 00:00:00".to_owned(),
    }
}

/// The span of timestamps `(start, end)` that a query for locations covers: each
/// date, or its default, read as `YYYY-MM-DDTHH:MM`. `None` where either date does
/// not read that way (the defaults never do).
pub fn time_range(start_date: Option<String>, end_date: Option<String>) -> (range: Option<(i64, i64)>)
    ensures
        range is Some <==> (date_timestamp(chosen_start_date(start_date)) is Some
            && date_timestamp(chosen_end_date(end_date)) is Some),
        range matches Some((start, end)) ==> {
            let first = naive_datetime_parse_from_str(chosen_start_date(start_date), date_format()).unwrap();
            let last = naive_datetime_parse_from_str(chosen_end_date(end_date), date_format()).unwrap();
            &&& Some(start as int) == date_timestamp(chosen_start_date(start_date))
            &&& Some(end as int) == date_timestamp(chosen_end_date(end_date))
            &&& start == first.epoch_seconds()
            &&& end == last.epoch_seconds()
            &&& first.is_valid() && last.is_valid()
            &&& start % 86400 == first.seconds_of_day()
            &&& end % 86400 == last.seconds_of_day()
        },
{
    let start = date_to_unixts(start_date_or_default(start_date));
    let end = date_to_unixts(end_date_or_default(end_date));
    match (start, end) {
        (Ok(s), Ok(e)) => Some((s, e)),
        _ => None,
    }
}

/// Whether a timestamp lies in the closed span from `start` to `end`.
pub open spec fn in_span(timestamp: int, start: int, end: int) -> bool {
    start <= timestamp <= end
}

/// The indices of the rows whose timestamp lies from `start` to `end`, both
/// included, in the order of the rows.
pub fn rows_in_span(timestamps: &Vec<i64>, start: i64, end: i64) -> (rows: Vec<usize>)
    ensures
        forall|k: int|
            0 <= k < rows.len() ==> {
                &&& #[trigger] rows[k] < timestamps.len()
                &&& in_span(timestamps[rows[k] as int] as int, start as int, end as int)
            },
        forall|k: int, l: int| 0 <= k < l < rows.len() ==> rows[k] < rows[l],
        forall|i: int|
            0 <= i < timestamps.len() && in_span(timestamps[i] as int, start as int, end as int)
                ==> rows@.contains(i as usize),
{
    let mut rows: Vec<usize> = Vec::new();
    let n = timestamps.len();
    let mut i: usize = 0;
    while i < n
        invariant
            n == timestamps.len(),
            i <= n,
            forall|k: int|
                0 <= k < rows.len() ==> {
                    &&& #[trigger] rows[k] < i
                    &&& in_span(timestamps[rows[k] as int] as int, start as int, end as int)
                },
            forall|k: int, l: int| 0 <= k < l < rows.len() ==> rows[k] < rows[l],
            forall|j: int|
                0 <= j < i && in_span(timestamps[j] as int, start as int, end as int)
                    ==> rows@.contains(j as usize),
        decreases n - i,
    {
        let t = timestamps[i];
        let ghost before = rows@;
        if start <= t && t <= end {
            rows.push(i);
        }
        assert forall|j: int|
            0 <= j < i + 1 && in_span(
                timestamps[j] as int,
                start as int,
                end as int,
            ) implies rows@.contains(j as usize) by {
            if j == i {
                assert(rows@[rows.len() - 1] == i);
            } else {
                let k = choose|k: int| 0 <= k < before.len() && before[k] == j as usize;
                assert(rows@[k] == before[k]);
            }
        }
        i = i + 1;
    }
    rows
}

/// A location recorded at a date and time from the start date to the end date of
/// a query, both included, has a timestamp in the span of the query.
pub proof fn lemma_dates_within_query_are_in_span(start: DateTime, row: DateTime, end: DateTime)
    requires
        start.is_valid(),
        row.is_valid(),
        end.is_valid(),
        !row.is_before(start),
        !end.is_before(row),
    ensures
        in_span(row.epoch_seconds(), start.epoch_seconds(), end.epoch_seconds()),
{
    if start.is_before(row) {
        lemma_epoch_seconds_preserves_order(start, row);
    }
    if row.is_before(end) {
        lemma_epoch_seconds_preserves_order(row, end);
    }
}

/// The bound a query date gives is the timestamp `date_to_unixts` gives for the same
/// text: the seconds from 1970-01-01 00:00 to the date and time the text names, the
/// time of day included; no bound where the text does not read.
pub proof fn lemma_query_bound_is_date_timestamp(date: Seq<char>)
    ensures
        date_timestamp(date) is Some <==> naive_datetime_parse_from_str(date, date_format()) is Some,
        naive_datetime_parse_from_str(date, date_format()) matches Some(dt) ==> date_timestamp(date)
            == Some(dt.days_from_epoch() * 86400 + dt.hour * 3600 + dt.minute * 60 + dt.second),
{
}

} // verus!
