use vstd::prelude::*;
use crate::calendar::CalDate;
use crate::digits::{digits_value, is_digit};
use crate::extract::{field_token, login_label, login_match_at, login_token, text_at, Field};
use crate::normalize::{century_digits, date_numeral, normalize_spec, three_tokens};
use crate::record::{assessed, reading_of, Assessment, FieldReading, RawRecord};
use crate::status::{classify_spec, DateStatus, Status};

verus! {

/// A two-digit year token takes the first two digits of the current year
/// and keeps its own two as the last two; a four-digit year token is the
/// year as written.
pub proof fn normalized_year(s: Seq<char>, i: int, j: int, current_year: int, offset_secs: i32)
    requires
        three_tokens(s, i, j),
        1000 <= current_year <= 9999,
    ensures
        ({
            let y = s.subrange(j + 1, s.len() as int);
            normalize_spec(s, current_year, offset_secs) matches Ok(d) ==> {
                &&& date_numeral(y)
                &&& y.len() == 2 ==> d.year / 100 == century_digits(current_year)
                    && d.year % 100 == digits_value(y)
                &&& y.len() == 4 ==> d.year == digits_value(y)
            }
        }),
{
    reveal(normalize_spec);
    assert forall|a: int, b: int| three_tokens(s, a, b) implies a == i && b == j by {
        assert(s[a] == '/' && s[b] == '/' && s[i] == '/' && s[j] == '/');
    }
    let y = s.subrange(j + 1, s.len() as int);
    if y.len() == 2 && date_numeral(y) {
        let z = y.drop_last();
        assert(z.drop_last().len() == 0);
        assert(digits_value(z.drop_last()) == 0);
        assert(z.last() == y[0]);
        assert(is_digit(y[0]) && is_digit(y[1]));
        assert(digits_value(z) <= 9);
        assert(digits_value(y) == digits_value(z) * 10 + ((y[1] as int) - ('0' as int)) as nat);
        assert(digits_value(y) < 100);
    }
}

/// An absent date, and only an absent date, is classified as absent.
pub proof fn absent_iff_no_date(date: DateStatus, now_days: int, window_days: int)
    ensures
        classify_spec(DateStatus::Absent, now_days, window_days) == Status::Absent,
        classify_spec(date, now_days, window_days) == Status::Absent <==> date is Absent,
{
}

/// A date is active exactly when it plus the window lies strictly after now;
/// a date exactly one window before now is inactive.
pub proof fn active_iff_within_window(d: CalDate, now_days: int, window_days: int)
    ensures
        classify_spec(DateStatus::Date(d), now_days, window_days) == Status::Active <==> d.days
            + window_days > now_days,
        d.days + window_days == now_days ==> classify_spec(
            DateStatus::Date(d),
            now_days,
            window_days,
        ) == Status::Inactive,
{
}

/// Without the login label in the text, the login field reads as missing,
/// whatever else the text holds.
pub proof fn no_label_no_login(
    r: FieldReading,
    text: Seq<char>,
    current_year: int,
    offset_secs: i32,
)
    requires
        forall|p: int| !text_at(text, p, login_label()),
        reading_of(r, Field::Login, text, current_year, offset_secs),
    ensures
        r is Missing,
{
    reveal(login_token);
    assert(!exists|p: int| login_match_at(text, p));
    assert(field_token(Field::Login, text) is None);
}

/// A field whose token gives no date leaves that field absent and its
/// status absent; the member itself is still assessed.
pub proof fn unreadable_field_is_absent(a: Assessment, rec: RawRecord, now: CalDate, window_days: int)
    requires
        assessed(a, rec, now, window_days),
    ensures
        a.login is Unreadable ==> a.member.last_login is Absent && a.member.login_status
            == Status::Absent,
        a.action is Unreadable ==> a.member.last_action is Absent && a.member.action_status
            == Status::Absent,
        a.member.user_id == rec.user_id,
        a.member.username@ == rec.username@,
{
}

} // verus!
