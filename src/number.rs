use vstd::prelude::*;
use vstd::string::*;

verus! {

/// Why a text is not a 32-bit signed integer.
#[derive(Debug, Clone, Copy, PartialEq, Eq, Structural)]
pub enum IntErrorKind {
    Empty,
    InvalidDigit,
    PosOverflow,
    NegOverflow,
}

pub open spec fn is_digit(c: char) -> bool {
    '0' <= c && c <= '9'
}

pub open spec fn digit_value(c: char) -> int {
    (c as u32) as int - ('0' as u32) as int
}

/// Reads the digits of `d` left to right onto `acc`, adding each digit for
/// a positive number and subtracting it for a negative one, and stops at the
/// first character that is no digit or at the first step that leaves the
/// 32-bit range.
pub open spec fn scan_digits(d: Seq<char>, acc: int, neg: bool) -> Result<int, IntErrorKind>
    decreases d.len(),
{
    if d.len() == 0 {
        Ok(acc)
    } else if !is_digit(d[0]) {
        Err(IntErrorKind::InvalidDigit)
    } else {
        let next = if neg { acc * 10 - digit_value(d[0]) } else { acc * 10 + digit_value(d[0]) };
        if next > i32::MAX {
            Err(IntErrorKind::PosOverflow)
        } else if next < i32::MIN {
            Err(IntErrorKind::NegOverflow)
        } else {
            scan_digits(d.skip(1), next, neg)
        }
    }
}

/// A decimal 32-bit signed integer with an optional leading `+` or `-`.
pub open spec fn parse_i32_spec(s: Seq<char>) -> Result<int, IntErrorKind> {
    if s.len() == 0 {
        Err(IntErrorKind::Empty)
    } else if s[0] == '+' || s[0] == '-' {
        if s.len() == 1 {
            Err(IntErrorKind::InvalidDigit)
        } else {
            scan_digits(s.skip(1), 0, s[0] == '-')
        }
    } else {
        scan_digits(s, 0, false)
    }
}

/// Parses `s` as a decimal 32-bit signed integer.
pub fn parse_i32(s: &str) -> (r: Result<i32, IntErrorKind>)
    ensures
        r is Ok <==> parse_i32_spec(s@) is Ok,
        r is Ok ==> parse_i32_spec(s@) == Ok::<int, IntErrorKind>(r->Ok_0 as int),
        r is Err ==> parse_i32_spec(s@) == Err::<int, IntErrorKind>(r->Err_0),
{
    let n = s.unicode_len();
    if n == 0 {
        return Err(IntErrorKind::Empty);
    }
    let c0 = s.get_char(0);
    let mut k: usize = 0;
    let mut neg = false;
    if c0 == '+' || c0 == '-' {
        if n == 1 {
            return Err(IntErrorKind::InvalidDigit);
        }
        k = 1;
        neg = c0 == '-';
    }
    let mut acc: i64 = 0;
    proof {
        assert(s@.skip(k as int) =~= (if k == 1 { s@.skip(1) } else { s@ }));
    }
    while k < n
        invariant
            n == s@.len(),
            k <= n,
            i32::MIN <= acc <= i32::MAX,
            scan_digits(s@.skip(k as int), acc as int, neg) == parse_i32_spec(s@),
        decreases n - k,
    {
        let c = s.get_char(k);
        proof {
            assert(s@.skip(k as int)[0] == c);
            assert(s@.skip(k as int).skip(1) =~= s@.skip(k + 1));
        }
        if !('0' <= c && c <= '9') {
            return Err(IntErrorKind::InvalidDigit);
        }
        let d: i64 = (c as u32 - '0' as u32) as i64;
        let next: i64 = if neg { acc * 10 - d } else { acc * 10 + d };
        if next > i32::MAX as i64 {
            return Err(IntErrorKind::PosOverflow);
        }
        if next < i32::MIN as i64 {
            return Err(IntErrorKind::NegOverflow);
        }
        acc = next;
        k += 1;
    }
    proof {
        assert(s@.skip(k as int).len() == 0);
    }
    Ok(acc as i32)
}

/// How each parse failure is described.
pub open spec fn int_error_spec(k: IntErrorKind) -> Seq<char> {
    match k {
        IntErrorKind::Empty => "cannot parse integer from empty string"@,
        IntErrorKind::InvalidDigit => "invalid digit found in string"@,
        IntErrorKind::PosOverflow => "number too large to fit in target type"@,
        IntErrorKind::NegOverflow => "number too small to fit in target type"@,
    }
}

/// The description of a parse failure.
pub fn int_error_text(k: IntErrorKind) -> (r: &'static str)
    ensures
        r@ == int_error_spec(k),
{
    match k {
        IntErrorKind::Empty => "cannot parse integer from empty string",
        IntErrorKind::InvalidDigit => "invalid digit found in string",
        IntErrorKind::PosOverflow => "number too large to fit in target type",
        IntErrorKind::NegOverflow => "number too small to fit in target type",
    }
}

/// Unicode `White_Space` characters.
pub open spec fn is_ws(c: char) -> bool {
    c == '\t' || c == '\n' || c == '\u{0B}' || c == '\u{0C}' || c == '\r' || c == ' ' || c == '\u{85}'
        || c == '\u{A0}' || c == '\u{1680}' || ('\u{2000}' <= c && c <= '\u{200A}') || c == '\u{2028}'
        || c == '\u{2029}' || c == '\u{202F}' || c == '\u{205F}' || c == '\u{3000}'
}

/// `s` without its leading whitespace.
pub open spec fn trim_start(s: Seq<char>) -> Seq<char>
    decreases s.len(),
{
    if s.len() > 0 && is_ws(s[0]) {
        trim_start(s.skip(1))
    } else {
        s
    }
}

/// `s` without its trailing whitespace.
pub open spec fn trim_end(s: Seq<char>) -> Seq<char>
    decreases s.len(),
{
    if s.len() > 0 && is_ws(s.last()) {
        trim_end(s.drop_last())
    } else {
        s
    }
}

/// `s` without leading and trailing whitespace.
pub open spec fn trimmed(s: Seq<char>) -> Seq<char> {
    trim_end(trim_start(s))
}

fn is_ws_char(c: char) -> (r: bool)
    ensures
        r == is_ws(c),
{
    c == '\t' || c == '\n' || c == '\u{0B}' || c == '\u{0C}' || c == '\r' || c == ' ' || c == '\u{85}'
        || c == '\u{A0}' || c == '\u{1680}' || ('\u{2000}' <= c && c <= '\u{200A}') || c == '\u{2028}'
        || c == '\u{2029}' || c == '\u{202F}' || c == '\u{205F}' || c == '\u{3000}'
}

/// `s` without leading and trailing whitespace.
pub fn trim(s: &str) -> (r: &str)
    ensures
        r@ == trimmed(s@),
{
    let n = s.unicode_len();
    let mut lo: usize = 0;
    assert(s@.skip(0) =~= s@);
    while lo < n && is_ws_char(s.get_char(lo))
        invariant
            n == s@.len(),
            lo <= n,
            trim_start(s@.skip(lo as int)) == trim_start(s@),
        decreases n - lo,
    {
        proof {
            assert(s@.skip(lo as int)[0] == s@[lo as int]);
            assert(s@.skip(lo as int).skip(1) =~= s@.skip(lo + 1));
        }
        lo += 1;
    }
    proof {
        if lo < n {
            assert(s@.skip(lo as int)[0] == s@[lo as int]);
        }
    }
    let t = s.substring_char(lo, n);
    assert(t@ =~= s@.skip(lo as int));
    let mut hi: usize = n - lo;
    assert(t@.take(hi as int) =~= t@);
    while hi > 0 && is_ws_char(t.get_char(hi - 1))
        invariant
            t@.len() == n - lo,
            hi <= t@.len(),
            trim_end(t@.take(hi as int)) == trim_end(t@),
        decreases hi,
    {
        proof {
            assert(t@.take(hi as int).last() == t@[hi - 1]);
            assert(t@.take(hi as int).drop_last() =~= t@.take(hi - 1));
        }
        hi -= 1;
    }
    proof {
        if hi > 0 {
            assert(t@.take(hi as int).last() == t@[hi - 1]);
        }
    }
    let r = t.substring_char(0, hi);
    assert(r@ =~= t@.take(hi as int));
    r
}

} // verus!
