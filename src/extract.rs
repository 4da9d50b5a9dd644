use vstd::prelude::*;
use crate::digits::is_digit;

verus! {

/// The label that opens the "last login" field.
pub open spec fn login_label() -> Seq<char> {
    "Last Login: "@
}

/// The label that opens the "last action" field.
pub open spec fn action_label() -> Seq<char> {
    "Last Action: "@
}

/// `s[i..i + n]` lies in `s` and holds digits only.
pub open spec fn digits_at(s: Seq<char>, i: int, n: int) -> bool {
    0 <= i && i + n <= s.len() && forall|k: int| i <= k < i + n ==> #[trigger] is_digit(s[k])
}

/// `t` occurs in `s` at index `i`.
pub open spec fn text_at(s: Seq<char>, i: int, t: Seq<char>) -> bool {
    0 <= i && i + t.len() <= s.len() && s.subrange(i, i + t.len()) == t
}

/// Width of the year token at `q`: four digits where there are four, else
/// two.
pub open spec fn year_width(s: Seq<char>, q: int) -> int {
    if digits_at(s, q, 4) {
        4
    } else {
        2
    }
}

/// Width of a greedy run of one or two digits starting at `q`.
pub open spec fn short_width(s: Seq<char>, q: int) -> int {
    if digits_at(s, q, 2) {
        2
    } else {
        1
    }
}

/// The login field matches at `p`: the label, then `dd/dd/` and a year of four
/// or two digits.
pub open spec fn login_match_at(s: Seq<char>, p: int) -> bool {
    let q = p + 12;
    &&& text_at(s, p, login_label())
    &&& digits_at(s, q, 2)
    &&& s[q + 2] == '/'
    &&& digits_at(s, q + 3, 2)
    &&& s[q + 5] == '/'
    &&& digits_at(s, q + 6, 2)
}

/// The date token of a login match at `p`.
pub open spec fn login_token_at(s: Seq<char>, p: int) -> Seq<char> {
    s.subrange(p + 12, p + 18 + year_width(s, p + 18))
}

/// Start of the day token of an action match at `p`.
pub open spec fn action_day_at(s: Seq<char>, p: int) -> int {
    p + 13 + short_width(s, p + 13) + 1
}

/// Start of the year token of an action match at `p`.
pub open spec fn action_year_at(s: Seq<char>, p: int) -> int {
    action_day_at(s, p) + short_width(s, action_day_at(s, p)) + 1
}

/// The action field matches at `p`: the label, then one or two digits,
/// `/`, one or two digits, `/` and a year of four or two digits.
pub open spec fn action_match_at(s: Seq<char>, p: int) -> bool {
    let q = p + 13;
    let d = action_day_at(s, p);
    let y = action_year_at(s, p);
    &&& text_at(s, p, action_label())
    &&& digits_at(s, q, short_width(s, q))
    &&& 0 <= q + short_width(s, q) < s.len()
    &&& s[q + short_width(s, q)] == '/'
    &&& digits_at(s, d, short_width(s, d))
    &&& 0 <= d + short_width(s, d) < s.len()
    &&& s[d + short_width(s, d)] == '/'
    &&& digits_at(s, y, 2)
}

/// The date token of an action match at `p`.
pub open spec fn action_token_at(s: Seq<char>, p: int) -> Seq<char> {
    s.subrange(p + 13, action_year_at(s, p) + year_width(s, action_year_at(s, p)))
}

/// The token of the leftmost login match, if any.
#[verifier::opaque]
pub open spec fn login_token(s: Seq<char>) -> Option<Seq<char>> {
    if exists|p: int| login_match_at(s, p) {
        let p = choose|p: int|
            login_match_at(s, p) && forall|q: int| 0 <= q < p ==> !login_match_at(s, q);
        Some(login_token_at(s, p))
    } else {
        None
    }
}

/// The token of the leftmost action match, if any.
#[verifier::opaque]
pub open spec fn action_token(s: Seq<char>) -> Option<Seq<char>> {
    if exists|p: int| action_match_at(s, p) {
        let p = choose|p: int|
            action_match_at(s, p) && forall|q: int| 0 <= q < p ==> !action_match_at(s, q);
        Some(action_token_at(s, p))
    } else {
        None
    }
}

/// Source of the login field's pattern.
pub open spec fn login_pattern() -> Seq<char> {
    "Last Login: ([0-9]{2}/[0-9]{2}/(?:[0-9]{4}|[0-9]{2}))"@
}

/// Source of the action field's pattern.
pub open spec fn action_pattern() -> Seq<char> {
    "Last Action: ([0-9]{1,2}/[0-9]{1,2}/(?:[0-9]{4}|[0-9]{2}))"@
}

/// Relies on regex's `Regex::new`, which compiles either pattern without
/// error, and `Regex::captures`, which finds the leftmost-first match; the
/// result is the text of its first group.
#[verifier::external_body]
fn first_group(pattern: &str, text: &str) -> (r: Option<String>)
    requires
        pattern@ == login_pattern() || pattern@ == action_pattern(),
    ensures
        pattern@ == login_pattern() ==> (r matches Some(t) ==> login_token(text@) == Some(t@)),
        pattern@ == login_pattern() ==> (r is None ==> login_token(text@) is None),
        pattern@ == action_pattern() ==> (r matches Some(t) ==> action_token(text@) == Some(t@)),
        pattern@ == action_pattern() ==> (r is None ==> action_token(text@) is None),
{
    let re = regex::Regex::new(pattern).unwrap();
    match re.captures(text) {
        Some(caps) => caps.get(1).map(|m| m.as_str().to_owned()),
        None => None,
    }
}

/// The two labelled date fields of a member's text.
#[derive(Clone, Copy, Debug, PartialEq, Eq, Structural)]
pub enum Field {
    Login,
    Action,
}

/// The raw date token of `field` in `s`, if the field is present.
pub open spec fn field_token(field: Field, s: Seq<char>) -> Option<Seq<char>> {
    match field {
        Field::Login => login_token(s),
        Field::Action => action_token(s),
    }
}

/// The raw `month/day/year` token of `field` in `text`; `None` when the
/// field is not present.
pub fn extract(text: &str, field: Field) -> (r: Option<String>)
    ensures
        r matches Some(t) ==> field_token(field, text@) == Some(t@),
        r is None ==> field_token(field, text@) is None,
{
    match field {
        Field::Login => {
            let pattern = "Last Login: ([0-9]{2}/[0-9]{2}/(?:[0-9]{4}|[0-9]{2}))";
            proof {
                reveal_strlit("Last Login: ([0-9]{2}/[0-9]{2}/(?:[0-9]{4}|[0-9]{2}))");
            }
            first_group(pattern, text)
        },
        Field::Action => {
            let pattern = "Last Action: ([0-9]{1,2}/[0-9]{1,2}/(?:[0-9]{4}|[0-9]{2}))";
            proof {
                reveal_strlit("Last Action: ([0-9]{1,2}/[0-9]{1,2}/(?:[0-9]{4}|[0-9]{2}))");
            }
            first_group(pattern, text)
        },
    }
}

} // verus!
