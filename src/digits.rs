use vstd::prelude::*;
use vstd::string::StrSliceExecFns;

verus! {

pub open spec fn is_digit(c: char) -> bool {
    '0' <= c && c <= '9'
}

/// A non-empty run of ASCII decimal digits.
pub open spec fn all_digits(t: Seq<char>) -> bool {
    t.len() > 0 && forall|i: int| 0 <= i < t.len() ==> #[trigger] is_digit(t[i])
}

/// The number that a run of decimal digits writes.
pub open spec fn digits_value(t: Seq<char>) -> nat
    decreases t.len(),
{
    if t.len() == 0 {
        0
    } else {
        digits_value(t.drop_last()) * 10 + ((t.last() as int) - ('0' as int)) as nat
    }
}

/// A decimal numeral whose value fits in 64 bits.
pub open spec fn u64_numeral(t: Seq<char>) -> bool {
    all_digits(t) && digits_value(t) <= u64::MAX
}

/// The characters of `s`, one by one.
pub fn chars_of(s: &str) -> (r: Vec<char>)
    ensures
        r@ == s@,
{
    let n = s.unicode_len();
    let mut r: Vec<char> = Vec::new();
    let mut i: usize = 0;
    while i < n
        invariant
            n == s@.len(),
            i <= n,
            r@ == s@.subrange(0, i as int),
        decreases n - i,
    {
        r.push(s.get_char(i));
        i = i + 1;
        assert(r@ =~= s@.subrange(0, i as int));
    }
    assert(r@ =~= s@);
    r
}

/// Reads `s[lo..hi]` as a decimal numeral: its value when every character
/// is a digit, there is at least one, and the value fits in 64 bits.
pub fn parse_digits(s: &Vec<char>, lo: usize, hi: usize) -> (r: Option<u64>)
    requires
        lo <= hi <= s@.len(),
    ensures
        r == (if u64_numeral(s@.subrange(lo as int, hi as int)) {
            Some(digits_value(s@.subrange(lo as int, hi as int)) as u64)
        } else {
            None::<u64>
        }),
{
    if lo == hi {
        return None;
    }
    let cap: u128 = 0x1_0000_0000_0000_0000;
    let mut acc: u128 = 0;
    let mut k: usize = lo;
    while k < hi
        invariant
            lo <= k <= hi <= s@.len(),
            cap == 0x1_0000_0000_0000_0000u128,
            forall|i: int| lo <= i < k ==> #[trigger] is_digit(s@[i]),
            acc as int == if digits_value(s@.subrange(lo as int, k as int)) < cap {
                digits_value(s@.subrange(lo as int, k as int)) as int
            } else {
                cap as int
            },
        decreases hi - k,
    {
        let c = s[k];
        if !('0' <= c && c <= '9') {
            assert(!is_digit(s@.subrange(lo as int, hi as int)[k - lo]));
            return None;
        }
        let d: u128 = (c as u32 - '0' as u32) as u128;
        let next = acc * 10 + d;
        acc = if next < cap { next } else { cap };
        proof {
            let t = s@.subrange(lo as int, k + 1);
            assert(t.drop_last() =~= s@.subrange(lo as int, k as int));
        }
        k = k + 1;
    }
    proof {
        let t = s@.subrange(lo as int, hi as int);
        assert forall|i: int| 0 <= i < t.len() implies #[trigger] is_digit(t[i]) by {
            assert(is_digit(s@[lo + i]));
        }
    }
    if acc < cap {
        Some(acc as u64)
    } else {
        None
    }
}

/// Reads a whole string as a decimal numeral that fits in 64 bits.
pub fn parse_number(s: &str) -> (r: Option<u64>)
    ensures
        r == (if u64_numeral(s@) { Some(digits_value(s@) as u64) } else { None::<u64> }),
{
    let cs = chars_of(s);
    assert(cs@.subrange(0, cs@.len() as int) =~= s@);
    parse_digits(&cs, 0, cs.len())
}

} // verus!
