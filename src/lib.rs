//! Recency report over a roster snapshot: pulls the "last login" and
//! "last action" dates out of each member's text, repairs two-digit years,
//! and classifies each date against an inactivity window.

mod calendar;
mod digits;
mod extract;
mod laws;
mod normalize;
mod record;
mod status;

pub use calendar::{day_number, days_before_month, days_in_month, is_leap, valid_ymd, CalDate};
pub use digits::{
    all_digits, chars_of, digits_value, is_digit, parse_digits, parse_number, u64_numeral,
};
pub use extract::{
    action_day_at, action_label, action_match_at, action_pattern, action_token, action_token_at,
    action_year_at, digits_at, extract, field_token, login_label, login_match_at, login_pattern,
    login_token, login_token_at, short_width, text_at, year_width, Field,
};
pub use laws::{
    absent_iff_no_date, active_iff_within_window, no_label_no_login, normalized_year,
    unreadable_field_is_absent,
};
pub use normalize::{
    century_digits, date_numeral, normalize, normalize_spec, repaired_year, three_tokens,
    DateError,
};
pub use record::{
    assess, assess_all, assessed, read_field, reading_date, reading_of, selected_spec, Assessment,
    FieldReading, Member, RawRecord,
};
pub use status::{classify, classify_spec, status_label, DateStatus, Status};
