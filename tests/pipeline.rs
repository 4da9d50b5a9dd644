use roster_activity::{
    assess, assess_all, classify, extract, normalize, parse_number, read_field, CalDate, DateError,
    DateStatus, Field, FieldReading, Member, RawRecord, Status,
};

fn date(y: i32, m: u32, d: u32) -> CalDate {
    CalDate::new(y, m, d, 0).unwrap()
}

fn record(name: &str, id: u64, text: &str) -> RawRecord {
    RawRecord { username: name.to_string(), user_id: id, text: text.to_string() }
}

#[test]
fn scenario_old_login_and_edge_action() {
    let now = date(2024, 6, 1);
    let a = assess(&record("ann", 7, "Last Login: 05/20/23 Last Action: 5/2/24"), &now, 30);
    assert_eq!(a.member.last_login, DateStatus::Date(date(2023, 5, 20)));
    assert_eq!(a.member.login_status, Status::Inactive);
    assert_eq!(a.member.last_action, DateStatus::Date(date(2024, 5, 2)));
    assert_eq!(a.member.action_status, Status::Inactive);
    assert_eq!(a.member.username, "ann");
    assert_eq!(a.member.user_id, 7);
}

#[test]
fn scenario_recent_login_without_action() {
    let now = date(2024, 6, 1);
    let a = assess(&record("bob", 8, "Last Login: 05/30/24"), &now, 30);
    assert_eq!(a.member.last_login, DateStatus::Date(date(2024, 5, 30)));
    assert_eq!(a.member.login_status, Status::Active);
    assert_eq!(a.member.last_action, DateStatus::Absent);
    assert_eq!(a.member.action_status, Status::Absent);
    assert!(matches!(a.action, FieldReading::Missing));
}

#[test]
fn scenario_filter_flags() {
    let now = date(2024, 6, 1);
    let first = Member::new(
        "first".to_string(),
        1,
        DateStatus::Date(date(2024, 5, 30)),
        DateStatus::Date(date(2023, 1, 1)),
        &now,
        30,
    );
    assert_eq!(first.login_status, Status::Active);
    assert_eq!(first.action_status, Status::Inactive);
    let second = Member::new("second".to_string(), 2, DateStatus::Absent, DateStatus::Absent, &now, 30);
    assert_eq!(second.login_status, Status::Absent);
    assert_eq!(second.action_status, Status::Absent);

    assert!(first.is_selected(true, false));
    assert!(!second.is_selected(true, false));
    assert!(first.is_selected(false, true));
    assert!(!second.is_selected(false, true));
    assert!(first.is_selected(false, false));
    assert!(second.is_selected(false, false));
}

#[test]
fn both_flags_follow_the_active_rule() {
    let now = date(2024, 6, 1);
    let inactive_only = Member::new(
        "old".to_string(),
        3,
        DateStatus::Date(date(2020, 1, 1)),
        DateStatus::Absent,
        &now,
        30,
    );
    assert!(inactive_only.is_selected(false, true));
    assert!(!inactive_only.is_selected(true, true));
}

#[test]
fn scenario_malformed_login_does_not_stop_the_run() {
    let now = date(2024, 6, 1);
    let records = vec![
        record("bad", 1, "Last Login: ab/cd/24 Last Action: 5/31/24"),
        record("odd", 2, "Last Login: 13/45/24"),
        record("good", 3, "Last Login: 05/30/24"),
    ];
    let all = assess_all(&records, &now, 30);
    assert_eq!(all.len(), 3);
    assert_eq!(all[0].member.last_login, DateStatus::Absent);
    assert_eq!(all[0].member.login_status, Status::Absent);
    assert_eq!(all[0].member.last_action, DateStatus::Date(date(2024, 5, 31)));
    assert_eq!(all[0].member.action_status, Status::Active);
    assert_eq!(all[1].member.last_login, DateStatus::Absent);
    match &all[1].login {
        FieldReading::Unreadable { raw, error } => {
            assert_eq!(raw, "13/45/24");
            assert_eq!(*error, DateError::NoSuchDate);
        }
        other => panic!("expected an unreadable field, got {:?}", other),
    }
    assert_eq!(all[2].member.username, "good");
    assert_eq!(all[2].member.login_status, Status::Active);
}

#[test]
fn two_digit_year_takes_current_century() {
    assert_eq!(normalize("05/20/23", 2024, 0), Ok(date(2023, 5, 20)));
    assert_eq!(normalize("05/20/99", 2031, 0), Ok(date(2099, 5, 20)));
    assert_eq!(normalize("01/02/07", 1950, 0), Ok(date(1907, 1, 2)));
}

#[test]
fn four_digit_year_is_kept() {
    assert_eq!(normalize("05/20/1999", 2024, 0), Ok(date(1999, 5, 20)));
    assert_eq!(normalize("5/2/2024", 2024, 0), Ok(date(2024, 5, 2)));
}

#[test]
fn three_digit_year_is_kept() {
    assert_eq!(normalize("05/20/999", 2024, 0), Ok(date(999, 5, 20)));
}

#[test]
fn normalize_keeps_the_offset() {
    let d = normalize("02/29/24", 2024, 3600).unwrap();
    assert_eq!(d.offset_secs, 3600);
    assert_eq!((d.year, d.month, d.day), (2024, 2, 29));
}

#[test]
fn normalize_errors() {
    assert_eq!(normalize("ab/cd/24", 2024, 0), Err(DateError::Malformed));
    assert_eq!(normalize("05/20", 2024, 0), Err(DateError::Malformed));
    assert_eq!(normalize("05/20/24/1", 2024, 0), Err(DateError::Malformed));
    assert_eq!(normalize("/20/24", 2024, 0), Err(DateError::Malformed));
    assert_eq!(normalize("05/20/99999999999", 2024, 0), Err(DateError::Malformed));
    assert_eq!(normalize("13/01/24", 2024, 0), Err(DateError::NoSuchDate));
    assert_eq!(normalize("02/29/23", 2024, 0), Err(DateError::NoSuchDate));
    assert_eq!(normalize("01/01/999999", 2024, 0), Err(DateError::NoSuchDate));
}

#[test]
fn day_numbers_follow_the_calendar() {
    assert_eq!(date(1, 1, 1).days, 1);
    assert_eq!(date(2, 1, 1).days, 366);
    assert_eq!(date(0, 1, 1).days, -365);
    assert_eq!(date(1970, 1, 1).days, 719_163);
    assert_eq!(date(2024, 6, 1).days - date(2024, 5, 2).days, 30);
    assert!(CalDate::new(2023, 2, 29, 0).is_none());
    assert!(CalDate::new(2000, 2, 29, 0).is_some());
    assert!(CalDate::new(1900, 2, 29, 0).is_none());
    assert!(CalDate::new(2024, 4, 31, 0).is_none());
}

#[test]
fn absent_date_is_none_status() {
    let now = date(2024, 6, 1);
    assert_eq!(classify(&DateStatus::Absent, &now, 30), Status::Absent);
    assert_eq!(classify(&DateStatus::Absent, &now, -5), Status::Absent);
    assert_eq!(classify(&DateStatus::Absent, &now, i64::MAX), Status::Absent);
}

#[test]
fn window_boundary_is_exclusive() {
    let now = date(2024, 6, 1);
    assert_eq!(classify(&DateStatus::Date(date(2024, 5, 2)), &now, 30), Status::Inactive);
    assert_eq!(classify(&DateStatus::Date(date(2024, 5, 3)), &now, 30), Status::Active);
    assert_eq!(classify(&DateStatus::Date(date(2024, 5, 1)), &now, 30), Status::Inactive);
    assert_eq!(classify(&DateStatus::Date(date(2024, 6, 1)), &now, 0), Status::Inactive);
    assert_eq!(classify(&DateStatus::Date(date(1, 1, 1)), &now, i64::MAX), Status::Active);
}

#[test]
fn login_missing_whatever_the_action() {
    let text = "Last Action: 5/2/24";
    assert_eq!(extract(text, Field::Login), None);
    assert_eq!(extract(text, Field::Action), Some("5/2/24".to_string()));
    assert!(matches!(read_field(text, Field::Login, 2024, 0), FieldReading::Missing));
    assert!(matches!(read_field("nothing here", Field::Login, 2024, 0), FieldReading::Missing));
}

#[test]
fn extraction_picks_the_leftmost_match() {
    let text = "Last Login: 1/2/24 Last Login: 01/02/2024 Last Login: 03/04/25";
    assert_eq!(extract(text, Field::Login), Some("01/02/2024".to_string()));
    assert_eq!(extract("Last Login: 01/02/20245", Field::Login), Some("01/02/2024".to_string()));
    assert_eq!(extract("Last Action: 12/3/123x", Field::Action), Some("12/3/12".to_string()));
    assert_eq!(extract("Last Login: 01/02/2x", Field::Login), None);
    assert_eq!(extract("Last Action: 123/3/24", Field::Action), None);
}

#[test]
fn action_allows_short_month_and_day() {
    let now = date(2024, 6, 1);
    match read_field("xx Last Action: 5/9/24 yy", Field::Action, now.year, now.offset_secs) {
        FieldReading::Found(d) => assert_eq!(d, date(2024, 5, 9)),
        other => panic!("expected a date, got {:?}", other),
    }
    assert!(matches!(read_field("Last Login: 5/9/24", Field::Login, 2024, 0), FieldReading::Missing));
}

#[test]
fn status_labels() {
    assert_eq!(Status::Active.label(), "ACTIVE");
    assert_eq!(Status::Inactive.label(), "INACTIVE");
    assert_eq!(Status::Absent.label(), "NONE");
}

#[test]
fn identifiers_parse_as_decimal() {
    assert_eq!(parse_number("12345"), Some(12345));
    assert_eq!(parse_number("18446744073709551615"), Some(u64::MAX));
    assert_eq!(parse_number("18446744073709551616"), None);
    assert_eq!(parse_number(""), None);
    assert_eq!(parse_number("12a"), None);
}
