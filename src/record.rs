use vstd::prelude::*;
use crate::calendar::CalDate;
use crate::extract::{extract, field_token, Field};
use crate::normalize::{normalize, normalize_spec, DateError};
use crate::status::{classify, classify_spec, DateStatus, Status};

verus! {

/// What one labelled field of a member's text gave.
#[derive(Debug)]
pub enum FieldReading {
    /// The label is not in the text.
    Missing,
    /// The field is there, but its token gives no date.
    Unreadable { raw: String, error: DateError },
    /// The field's date.
    Found(CalDate),
}

/// `r` is what reading `field` from `text` gives.
pub open spec fn reading_of(
    r: FieldReading,
    field: Field,
    text: Seq<char>,
    current_year: int,
    offset_secs: i32,
) -> bool {
    match field_token(field, text) {
        None => r is Missing,
        Some(t) => match normalize_spec(t, current_year, offset_secs) {
            Ok(d) => r == FieldReading::Found(d),
            Err(e) => r matches FieldReading::Unreadable { raw, error } && raw@ == t && error == e,
        },
    }
}

/// The date that a reading leaves in the member's record: a missing or an
/// unreadable field is absent.
pub open spec fn reading_date(r: FieldReading) -> DateStatus {
    match r {
        FieldReading::Found(d) => DateStatus::Date(d),
        _ => DateStatus::Absent,
    }
}

impl FieldReading {
    pub fn date_status(&self) -> (r: DateStatus)
        ensures
            r == reading_date(*self),
    {
        match self {
            FieldReading::Found(d) => DateStatus::Date(*d),
            _ => DateStatus::Absent,
        }
    }
}

/// Finds `field` in `text` and turns its token into a date. A token that
/// gives no date is reported, not fatal.
pub fn read_field(text: &str, field: Field, current_year: i32, offset_secs: i32) -> (r:
    FieldReading)
    requires
        1000 <= current_year <= 9999,
    ensures
        reading_of(r, field, text@, current_year as int, offset_secs),
        r matches FieldReading::Found(d) ==> d.wf(),
{
    match extract(text, field) {
        None => FieldReading::Missing,
        Some(raw) => {
            let res = normalize(raw.as_str(), current_year, offset_secs);
            assert(field_token(field, text@) == Some(raw@));
            match res {
                Ok(d) => FieldReading::Found(d),
                Err(error) => FieldReading::Unreadable { raw, error },
            }
        },
    }
}

/// One member block of the roster: identity and free text.
#[derive(Debug)]
pub struct RawRecord {
    pub username: String,
    pub user_id: u64,
    pub text: String,
}

/// A member with both date fields and their two independent statuses.
#[derive(Debug)]
pub struct Member {
    pub username: String,
    pub user_id: u64,
    pub last_login: DateStatus,
    pub login_status: Status,
    pub last_action: DateStatus,
    pub action_status: Status,
}

/// Whether the report shows a member with these statuses. The flag for
/// active members is checked first: with both flags set, the flag for
/// inactive members has no effect.
pub open spec fn selected_spec(
    login: Status,
    action: Status,
    active_only: bool,
    inactive_only: bool,
) -> bool {
    if active_only {
        login == Status::Active || action == Status::Active
    } else if inactive_only {
        login == Status::Inactive || action == Status::Inactive
    } else {
        true
    }
}

impl Member {
    /// A member whose two dates are classified against `now` and the window.
    pub fn new(
        username: String,
        user_id: u64,
        last_login: DateStatus,
        last_action: DateStatus,
        now: &CalDate,
        window_days: i64,
    ) -> (r: Member)
        ensures
            r.username == username,
            r.user_id == user_id,
            r.last_login == last_login,
            r.last_action == last_action,
            r.login_status == classify_spec(last_login, now.days as int, window_days as int),
            r.action_status == classify_spec(last_action, now.days as int, window_days as int),
    {
        let login_status = classify(&last_login, now, window_days);
        let action_status = classify(&last_action, now, window_days);
        Member { username, user_id, last_login, login_status, last_action, action_status }
    }

    /// Whether the report shows this member under the given flags.
    pub fn is_selected(&self, active_only: bool, inactive_only: bool) -> (r: bool)
        ensures
            r == selected_spec(self.login_status, self.action_status, active_only, inactive_only),
    {
        if active_only {
            self.login_status == Status::Active || self.action_status == Status::Active
        } else if inactive_only {
            self.login_status == Status::Inactive || self.action_status == Status::Inactive
        } else {
            true
        }
    }
}

/// A member together with what each of its fields gave.
#[derive(Debug)]
pub struct Assessment {
    pub member: Member,
    pub login: FieldReading,
    pub action: FieldReading,
}

/// `a` is the assessment of `rec` at `now` with the window.
pub open spec fn assessed(a: Assessment, rec: RawRecord, now: CalDate, window_days: int) -> bool {
    &&& reading_of(a.login, Field::Login, rec.text@, now.year as int, now.offset_secs)
    &&& reading_of(a.action, Field::Action, rec.text@, now.year as int, now.offset_secs)
    &&& a.member.username@ == rec.username@
    &&& a.member.user_id == rec.user_id
    &&& a.member.last_login == reading_date(a.login)
    &&& a.member.last_action == reading_date(a.action)
    &&& a.member.login_status == classify_spec(a.member.last_login, now.days as int, window_days)
    &&& a.member.action_status == classify_spec(a.member.last_action, now.days as int, window_days)
}

/// Reads both fields of a record and classifies them. The century of a
/// two-digit year and the offset of the dates come from `now`.
pub fn assess(record: &RawRecord, now: &CalDate, window_days: i64) -> (r: Assessment)
    requires
        1000 <= now.year <= 9999,
    ensures
        assessed(r, *record, *now, window_days as int),
{
    let login = read_field(record.text.as_str(), Field::Login, now.year, now.offset_secs);
    let action = read_field(record.text.as_str(), Field::Action, now.year, now.offset_secs);
    let username = record.username.as_str().to_owned();
    let member = Member::new(
        username,
        record.user_id,
        login.date_status(),
        action.date_status(),
        now,
        window_days,
    );
    Assessment { member, login, action }
}

/// Assesses every record, in order; a field that gives no date affects
/// only its own member.
pub fn assess_all(records: &Vec<RawRecord>, now: &CalDate, window_days: i64) -> (r: Vec<
    Assessment,
>)
    requires
        1000 <= now.year <= 9999,
    ensures
        r@.len() == records@.len(),
        forall|i: int| 0 <= i < r@.len() ==> assessed(#[trigger] r@[i], records@[i], *now, window_days as int),
{
    let mut r: Vec<Assessment> = Vec::new();
    let mut i: usize = 0;
    while i < records.len()
        invariant
            1000 <= now.year <= 9999,
            i <= records@.len(),
            r@.len() == i,
            forall|k: int| 0 <= k < i ==> assessed(#[trigger] r@[k], records@[k], *now, window_days as int),
        decreases records@.len() - i,
    {
        let a = assess(&records[i], now, window_days);
        r.push(a);
        i = i + 1;
    }
    r
}

} // verus!
