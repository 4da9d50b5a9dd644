use vstd::prelude::*;
use crate::calendar::{valid_ymd, CalDate, MAX_YEAR};
use crate::digits::{chars_of, digits_value, parse_digits, u64_numeral};

verus! {

/// Why a raw `month/day/year` string gave no date.
#[derive(Clone, Copy, Debug, PartialEq, Eq, Structural)]
pub enum DateError {
    /// Not three `/`-separated tokens, or a token that is not a numeral.
    Malformed,
    /// Three numerals that name no day of the calendar.
    NoSuchDate,
}

/// `s` splits at the slashes `i` and `j` (and no other) into three tokens.
pub open spec fn three_tokens(s: Seq<char>, i: int, j: int) -> bool {
    &&& 0 <= i < j < s.len()
    &&& s[i] == '/'
    &&& s[j] == '/'
    &&& forall|k: int| 0 <= k < s.len() && k != i && k != j ==> #[trigger] s[k] != '/'
}

/// A date token: a numeral whose value fits in 32 bits.
pub open spec fn date_numeral(t: Seq<char>) -> bool {
    u64_numeral(t) && digits_value(t) <= u32::MAX
}

/// The first two digits of a four-digit year.
pub open spec fn century_digits(current_year: int) -> int {
    current_year / 100
}

/// The year that a year token stands for: two digits take the century of
/// the current year, any other width is read as written.
pub open spec fn repaired_year(y: Seq<char>, current_year: int) -> int {
    if y.len() == 2 {
        century_digits(current_year) * 100 + digits_value(y)
    } else {
        digits_value(y) as int
    }
}

/// The date, or the error, that a raw `month/day/year` string gives.
#[verifier::opaque]
pub open spec fn normalize_spec(s: Seq<char>, current_year: int, offset_secs: i32) -> Result<
    CalDate,
    DateError,
> {
    if exists|i: int, j: int| three_tokens(s, i, j) {
        let (i, j) = choose|i: int, j: int| three_tokens(s, i, j);
        let m = s.subrange(0, i);
        let d = s.subrange(i + 1, j);
        let y = s.subrange(j + 1, s.len() as int);
        if !(date_numeral(m) && date_numeral(d) && date_numeral(y)) {
            Err(DateError::Malformed)
        } else {
            let yr = repaired_year(y, current_year);
            let mo = digits_value(m) as int;
            let dy = digits_value(d) as int;
            if valid_ymd(yr, mo, dy) {
                Ok(
                    CalDate {
                        year: yr as i32,
                        month: mo as u32,
                        day: dy as u32,
                        offset_secs,
                        days: crate::calendar::day_number(yr, mo, dy) as i32,
                    },
                )
            } else {
                Err(DateError::NoSuchDate)
            }
        }
    } else {
        Err(DateError::Malformed)
    }
}

/// Index of the first `/` in `s` at or after `from`, or the length of `s`.
fn find_slash(s: &Vec<char>, from: usize) -> (r: usize)
    requires
        from <= s@.len(),
    ensures
        from <= r <= s@.len(),
        r < s@.len() ==> s@[r as int] == '/',
        forall|k: int| from <= k < r ==> #[trigger] s@[k] != '/',
{
    let mut k: usize = from;
    while k < s.len()
        invariant
            from <= k <= s@.len(),
            forall|q: int| from <= q < k ==> #[trigger] s@[q] != '/',
        decreases s@.len() - k,
    {
        if s[k] == '/' {
            return k;
        }
        k = k + 1;
    }
    k
}

/// Reads `s[lo..hi]` as a date token.
fn parse_token(s: &Vec<char>, lo: usize, hi: usize) -> (r: Option<u32>)
    requires
        lo <= hi <= s@.len(),
    ensures
        r == (if date_numeral(s@.subrange(lo as int, hi as int)) {
            Some(digits_value(s@.subrange(lo as int, hi as int)) as u32)
        } else {
            None::<u32>
        }),
{
    match parse_digits(s, lo, hi) {
        Some(v) => if v <= 0xFFFF_FFFF {
            Some(v as u32)
        } else {
            None
        },
        None => None,
    }
}

/// Turns a raw `month/day/year` string into a calendar date at the given
/// offset. A two-digit year takes the first two digits of `current_year`;
/// a year of any other width is kept as written.
pub fn normalize(raw: &str, current_year: i32, offset_secs: i32) -> (r: Result<CalDate, DateError>)
    requires
        1000 <= current_year <= 9999,
    ensures
        r == normalize_spec(raw@, current_year as int, offset_secs),
        r matches Ok(d) ==> d.wf(),
{
    reveal(normalize_spec);
    let s = chars_of(raw);
    let n = s.len();
    let i = find_slash(&s, 0);
    if i == n {
        assert(!exists|a: int, b: int| three_tokens(raw@, a, b));
        return Err(DateError::Malformed);
    }
    let j = find_slash(&s, i + 1);
    if j == n {
        assert(!exists|a: int, b: int| three_tokens(raw@, a, b)) by {
            if exists|a: int, b: int| three_tokens(raw@, a, b) {
                let (a, b) = choose|a: int, b: int| three_tokens(raw@, a, b);
                assert(raw@[a] == '/' && raw@[b] == '/');
            }
        }
        return Err(DateError::Malformed);
    }
    let k = find_slash(&s, j + 1);
    if k < n {
        assert(!exists|a: int, b: int| three_tokens(raw@, a, b)) by {
            if exists|a: int, b: int| three_tokens(raw@, a, b) {
                let (a, b) = choose|a: int, b: int| three_tokens(raw@, a, b);
                assert(raw@[i as int] == '/' && raw@[j as int] == '/' && raw@[k as int] == '/');
            }
        }
        return Err(DateError::Malformed);
    }
    assert(three_tokens(raw@, i as int, j as int));
    assert forall|a: int, b: int| three_tokens(raw@, a, b) implies a == i && b == j by {
        assert(raw@[a] == '/' && raw@[b] == '/');
        assert(raw@[i as int] == '/' && raw@[j as int] == '/');
    }
    let ghost yt = raw@.subrange(j + 1, n as int);
    let month = parse_token(&s, 0, i);
    let day = parse_token(&s, i + 1, j);
    let year = parse_token(&s, j + 1, n);
    match (month, day, year) {
        (Some(mo), Some(dy), Some(yv)) => {
            let yr: u64 = if n - (j + 1) == 2 {
                ((current_year / 100) as u64) * 100 + (yv as u64)
            } else {
                yv as u64
            };
            assert(yr as int == repaired_year(yt, current_year as int));
            if yr > MAX_YEAR as u64 {
                return Err(DateError::NoSuchDate);
            }
            match CalDate::new(yr as i32, mo, dy, offset_secs) {
                Some(d) => Ok(d),
                None => Err(DateError::NoSuchDate),
            }
        },
        _ => Err(DateError::Malformed),
    }
}

} // verus!
