use vstd::prelude::*;
use crate::calendar::CalDate;

verus! {

/// A date field of a member: a concrete date, or the explicit mark that the
/// field was not found (or could not be read).
#[derive(Clone, Copy, Debug, PartialEq, Eq, Structural)]
pub enum DateStatus {
    Date(CalDate),
    Absent,
}

/// Recency of one date field against the inactivity window.
#[derive(Clone, Copy, Debug, PartialEq, Eq, Structural)]
pub enum Status {
    /// The date plus the window lies strictly after now.
    Active,
    /// The date plus the window is now or earlier.
    Inactive,
    /// There is no date to judge.
    Absent,
}

/// Classification of a date field: absent stays absent; otherwise active
/// exactly when `date + window > now`, comparing day counts.
pub open spec fn classify_spec(date: DateStatus, now_days: int, window_days: int) -> Status {
    match date {
        DateStatus::Absent => Status::Absent,
        DateStatus::Date(d) => if d.days + window_days > now_days {
            Status::Active
        } else {
            Status::Inactive
        },
    }
}

/// Classifies `date` against the reference date `now` and a window of
/// `window_days` days. The boundary is exclusive: a date exactly
/// `window_days` before `now` is inactive.
pub fn classify(date: &DateStatus, now: &CalDate, window_days: i64) -> (r: Status)
    ensures
        r == classify_spec(*date, now.days as int, window_days as int),
{
    match date {
        DateStatus::Absent => Status::Absent,
        DateStatus::Date(d) => {
            if (d.days as i128) + (window_days as i128) > (now.days as i128) {
                Status::Active
            } else {
                Status::Inactive
            }
        },
    }
}

impl Status {
    /// The label that the report prints for this status.
    pub fn label(&self) -> (r: &'static str)
        ensures
            r@ == status_label(*self),
    {
        match self {
            Status::Active => "ACTIVE",
            Status::Inactive => "INACTIVE",
            Status::Absent => "NONE",
        }
    }
}

pub open spec fn status_label(s: Status) -> Seq<char> {
    match s {
        Status::Active => "ACTIVE"@,
        Status::Inactive => "INACTIVE"@,
        Status::Absent => "NONE"@,
    }
}

} // verus!
