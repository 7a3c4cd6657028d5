//! Shared helpers: ASCII case folding, decimal formatting and parsing, and
//! XML PCDATA escaping.

use vstd::prelude::*;

verus! {

use vstd::string::StrSliceExecFns;
use vstd::string::StringExecFns;
use crate::Error;

// ---------------------------------------------------------------------------
// ASCII case folding
// ---------------------------------------------------------------------------

/// Code point of `c` with ASCII upper-case letters folded to lower case.
pub open spec fn fold_char(c: char) -> int {
    if 65 <= c as int && c as int <= 90 {
        c as int + 32
    } else {
        c as int
    }
}

/// Case-folded image of a character sequence.
pub open spec fn fold_case(s: Seq<char>) -> Seq<int> {
    Seq::new(s.len(), |i: int| fold_char(s[i]))
}

/// Equality of character sequences up to ASCII letter case.
pub open spec fn str_ieq(a: Seq<char>, b: Seq<char>) -> bool {
    fold_case(a) == fold_case(b)
}

fn fold_char_exec(c: char) -> (r: u32)
    ensures
        r as int == fold_char(c),
{
    let u = c as u32;
    if 65 <= u && u <= 90 {
        u + 32
    } else {
        u
    }
}

/// Case-insensitive (ASCII) string comparison.
pub fn eq_ignore_ascii_case(a: &str, b: &str) -> (r: bool)
    ensures
        r == str_ieq(a@, b@),
{
    let alen = a.unicode_len();
    let blen = b.unicode_len();
    if alen != blen {
        proof {
            assert(fold_case(a@).len() != fold_case(b@).len());
        }
        return false;
    }
    let mut i: usize = 0;
    while i < alen
        invariant
            alen == a@.len(),
            alen == b@.len(),
            i <= alen,
            forall|j: int| 0 <= j < i ==> fold_char(a@[j]) == fold_char(b@[j]),
        decreases alen - i,
    {
        let ca = a.get_char(i);
        let cb = b.get_char(i);
        if fold_char_exec(ca) != fold_char_exec(cb) {
            proof {
                assert(fold_case(a@)[i as int] != fold_case(b@)[i as int]);
            }
            return false;
        }
        i += 1;
    }
    proof {
        assert(fold_case(a@) =~= fold_case(b@));
    }
    true
}

/// Whether `p` is a prefix of `s`.
pub open spec fn has_prefix(s: Seq<char>, p: Seq<char>) -> bool {
    p.len() <= s.len() && s.take(p.len() as int) == p
}

/// Prefix test on strings.
pub fn str_has_prefix(s: &str, p: &str) -> (r: bool)
    ensures
        r == has_prefix(s@, p@),
{
    let slen = s.unicode_len();
    let plen = p.unicode_len();
    if plen > slen {
        return false;
    }
    let mut i: usize = 0;
    while i < plen
        invariant
            slen == s@.len(),
            plen == p@.len(),
            plen <= slen,
            i <= plen,
            forall|j: int| 0 <= j < i ==> s@[j] == p@[j],
        decreases plen - i,
    {
        if s.get_char(i) != p.get_char(i) {
            proof {
                assert(s@.take(plen as int)[i as int] != p@[i as int]);
            }
            return false;
        }
        i += 1;
    }
    proof {
        assert(s@.take(plen as int) =~= p@);
    }
    true
}

// ---------------------------------------------------------------------------
// Decimal digits
// ---------------------------------------------------------------------------

/// The character for one decimal digit.
pub open spec fn digit_char(d: int) -> char {
    if d == 0 {
        '0'
    } else if d == 1 {
        '1'
    } else if d == 2 {
        '2'
    } else if d == 3 {
        '3'
    } else if d == 4 {
        '4'
    } else if d == 5 {
        '5'
    } else if d == 6 {
        '6'
    } else if d == 7 {
        '7'
    } else if d == 8 {
        '8'
    } else {
        '9'
    }
}

/// Decimal notation of `n`, most significant digit first, no leading zeros
/// (a single `'0'` for zero).
pub open spec fn dec_digits(n: nat) -> Seq<char>
    decreases n,
{
    if n < 10 {
        seq![digit_char(n as int)]
    } else {
        dec_digits(n / 10).push(digit_char((n % 10) as int))
    }
}

fn digit_str(d: u64) -> (r: &'static str)
    requires
        d < 10,
    ensures
        r@ =~= seq![digit_char(d as int)],
{
    proof {
        reveal_strlit("0");
        reveal_strlit("1");
        reveal_strlit("2");
        reveal_strlit("3");
        reveal_strlit("4");
        reveal_strlit("5");
        reveal_strlit("6");
        reveal_strlit("7");
        reveal_strlit("8");
        reveal_strlit("9");
    }
    if d == 0 {
        "0"
    } else if d == 1 {
        "1"
    } else if d == 2 {
        "2"
    } else if d == 3 {
        "3"
    } else if d == 4 {
        "4"
    } else if d == 5 {
        "5"
    } else if d == 6 {
        "6"
    } else if d == 7 {
        "7"
    } else if d == 8 {
        "8"
    } else {
        "9"
    }
}

/// Decimal notation of `n`.
pub fn u64_to_digits(n: u64) -> (r: String)
    ensures
        r@ == dec_digits(n as nat),
    decreases n,
{
    if n < 10 {
        let mut s = String::new();
        s.append(digit_str(n));
        proof {
            assert(s@ =~= dec_digits(n as nat));
        }
        s
    } else {
        let mut s = u64_to_digits(n / 10);
        s.append(digit_str(n % 10));
        proof {
            assert(s@ =~= dec_digits(n as nat));
        }
        s
    }
}

/// Whether `c` is a decimal digit.
pub open spec fn is_digit(c: char) -> bool {
    48 <= c as int && c as int <= 57
}

/// Numeric value of a digit character.
pub open spec fn digit_val(c: char) -> int {
    c as int - 48
}

/// Whether every character of `s` is a decimal digit.
pub open spec fn all_digits(s: Seq<char>) -> bool {
    forall|i: int| 0 <= i < s.len() ==> is_digit(#[trigger] s[i])
}

/// Value of a digit string read in base ten.
pub open spec fn digits_val(s: Seq<char>) -> int
    decreases s.len(),
{
    if s.len() == 0 {
        0
    } else {
        digits_val(s.drop_last()) * 10 + digit_val(s.last())
    }
}

proof fn lemma_digits_val_nonneg(s: Seq<char>)
    requires
        all_digits(s),
    ensures
        digits_val(s) >= 0,
    decreases s.len(),
{
    if s.len() > 0 {
        assert(all_digits(s.drop_last()));
        lemma_digits_val_nonneg(s.drop_last());
    }
}

proof fn lemma_digits_val_prefix(s: Seq<char>, i: int)
    requires
        all_digits(s),
        0 <= i <= s.len(),
    ensures
        digits_val(s.take(i)) <= digits_val(s),
    decreases s.len() - i,
{
    if i < s.len() {
        lemma_digits_val_prefix(s, i + 1);
        assert(s.take(i + 1).drop_last() =~= s.take(i));
        assert(all_digits(s.take(i)));
        lemma_digits_val_nonneg(s.take(i));
        assert(digits_val(s.take(i + 1)) == digits_val(s.take(i)) * 10 + digit_val(s.take(i + 1).last()));
    } else {
        assert(s.take(i) =~= s);
    }
}

/// Whether `s` is a well-formed `u32` in decimal: nonempty, digits only,
/// and within range.
pub open spec fn valid_u32_digits(s: Seq<char>) -> bool {
    s.len() > 0 && all_digits(s) && digits_val(s) <= u32::MAX
}

/// Parses a nonempty all-digit decimal string into a `u32`.
pub fn parse_u32(s: &str) -> (r: Option<u32>)
    ensures
        r is Some <==> valid_u32_digits(s@),
        r matches Some(v) ==> v == digits_val(s@),
{
    let len = s.unicode_len();
    if len == 0 {
        return None;
    }
    let mut acc: u64 = 0;
    let mut i: usize = 0;
    while i < len
        invariant
            len == s@.len(),
            0 < len,
            i <= len,
            all_digits(s@.take(i as int)),
            acc == digits_val(s@.take(i as int)),
            acc <= u32::MAX,
        decreases len - i,
    {
        let c = s.get_char(i);
        let u = c as u32;
        if !(48 <= u && u <= 57) {
            proof {
                assert(!is_digit(s@[i as int]));
            }
            return None;
        }
        let d: u64 = (u - 48) as u64;
        acc = acc * 10 + d;
        proof {
            assert(s@.take(i + 1).drop_last() =~= s@.take(i as int));
            assert(all_digits(s@.take(i + 1)));
        }
        i += 1;
        if acc > u32::MAX as u64 {
            proof {
                if all_digits(s@) && digits_val(s@) <= u32::MAX {
                    lemma_digits_val_prefix(s@, i as int);
                }
            }
            return None;
        }
    }
    proof {
        assert(s@.take(len as int) =~= s@);
    }
    Some(acc as u32)
}

// ---------------------------------------------------------------------------
// Duration formatting and parsing
// ---------------------------------------------------------------------------

/// Decimal notation padded with a zero to at least two characters.
pub open spec fn pad2_digits(n: nat) -> Seq<char> {
    if n < 10 {
        seq!['0'] + dec_digits(n)
    } else {
        dec_digits(n)
    }
}

/// The `H:MM:SS` rendering of a signed number of seconds.
pub open spec fn seconds_str(total: int) -> Seq<char> {
    let sign: Seq<char> = if total < 0 {
        seq!['-']
    } else {
        Seq::empty()
    };
    let a = if total < 0 {
        -total
    } else {
        total
    };
    sign + pad2_digits((a / 3600) as nat) + seq![':'] + pad2_digits(((a / 60) % 60) as nat)
        + seq![':'] + pad2_digits((a % 60) as nat)
}

fn pad2(n: u64) -> (r: String)
    ensures
        r@ == pad2_digits(n as nat),
{
    if n < 10 {
        let mut s = String::new();
        proof {
            reveal_strlit("0");
        }
        s.append("0");
        let d = u64_to_digits(n);
        s.append(d.as_str());
        proof {
            assert("0"@ =~= seq!['0']);
        }
        s
    } else {
        u64_to_digits(n)
    }
}

/// Renders a number of seconds as `H:MM:SS` with a leading minus sign for
/// negative values, hours, minutes and seconds each padded to two digits.
pub fn seconds_to_str(seconds_total: i64) -> (r: String)
    requires
        seconds_total > i64::MIN,
    ensures
        r@ == seconds_str(seconds_total as int),
{
    let mut out = String::new();
    let a: u64;
    if seconds_total < 0 {
        proof {
            reveal_strlit("-");
        }
        out.append("-");
        proof {
            assert("-"@ =~= seq!['-']);
        }
        a = (-seconds_total) as u64;
    } else {
        a = seconds_total as u64;
    }
    let hours = pad2(a / 3600);
    let minutes = pad2((a / 60) % 60);
    let seconds = pad2(a % 60);
    proof {
        reveal_strlit(":");
        assert(":"@ =~= seq![':']);
    }
    out.append(hours.as_str());
    out.append(":");
    out.append(minutes.as_str());
    out.append(":");
    out.append(seconds.as_str());
    proof {
        assert(out@ =~= seconds_str(seconds_total as int));
    }
    out
}

/// Whether `s` splits as `H:MM:SS` exactly at the first two colons `i < j`.
pub open spec fn hms_split(s: Seq<char>, i: int, j: int) -> bool {
    &&& 0 <= i < j < s.len()
    &&& s[i] == ':'
    &&& s[j] == ':'
    &&& forall|k: int| 0 <= k < i ==> s[k] != ':'
    &&& forall|k: int| i < k < j ==> s[k] != ':'
}

/// Whether the three fields of the split are well-formed `u32` numerals.
pub open spec fn hms_fields_valid(s: Seq<char>, i: int, j: int) -> bool {
    &&& valid_u32_digits(s.subrange(0, i))
    &&& valid_u32_digits(s.subrange(i + 1, j))
    &&& valid_u32_digits(s.subrange(j + 1, s.len() as int))
}

/// Total seconds encoded by the split fields.
pub open spec fn hms_value(s: Seq<char>, i: int, j: int) -> int {
    digits_val(s.subrange(0, i)) * 3600 + digits_val(s.subrange(i + 1, j)) * 60 + digits_val(
        s.subrange(j + 1, s.len() as int),
    )
}

/// Parses a duration of the form `H:MM:SS` into seconds.  The third field is
/// everything after the second colon.  A missing colon, a non-numeric or
/// out-of-range field, or a total beyond `u32::MAX` is a protocol error.
pub fn seconds_from_str(s: &str) -> (r: Result<u32, Error>)
    ensures
        r is Ok <==> exists|i: int, j: int|
            #[trigger] hms_split(s@, i, j) && hms_fields_valid(s@, i, j) && hms_value(s@, i, j)
                <= u32::MAX,
        r matches Ok(v) ==> exists|i: int, j: int|
            #[trigger] hms_split(s@, i, j) && hms_fields_valid(s@, i, j) && v == hms_value(
                s@,
                i,
                j,
            ),
        r matches Err(e) ==> e == Error::ProtocolError,
{
    let len = s.unicode_len();
    // First colon.
    let mut first: usize = 0;
    while first < len && s.get_char(first) != ':'
        invariant
            len == s@.len(),
            first <= len,
            forall|k: int| 0 <= k < first ==> s@[k] != ':',
        decreases len - first,
    {
        first += 1;
    }
    if first >= len {
        proof {
            assert(forall|i: int, j: int| !hms_split(s@, i, j));
        }
        return Err(Error::ProtocolError);
    }
    // Second colon.
    let mut second: usize = first + 1;
    while second < len && s.get_char(second) != ':'
        invariant
            len == s@.len(),
            first < second <= len,
            forall|k: int| first < k < second ==> s@[k] != ':',
        decreases len - second,
    {
        second += 1;
    }
    if second >= len {
        proof {
            assert forall|i: int, j: int| !hms_split(s@, i, j) by {
                if hms_split(s@, i, j) {
                    assert(i == first);
                }
            }
        }
        return Err(Error::ProtocolError);
    }
    proof {
        assert(hms_split(s@, first as int, second as int));
        assert forall|i: int, j: int| hms_split(s@, i, j) implies i == first && j == second by {
            assert(s@[i] == ':');
        }
    }
    let hours_part = s.substring_char(0, first);
    let minutes_part = s.substring_char(first + 1, second);
    let seconds_part = s.substring_char(second + 1, len);
    let hours = match parse_u32(hours_part) {
        Some(v) => v,
        None => {
            return Err(Error::ProtocolError);
        },
    };
    let minutes = match parse_u32(minutes_part) {
        Some(v) => v,
        None => {
            return Err(Error::ProtocolError);
        },
    };
    let seconds = match parse_u32(seconds_part) {
        Some(v) => v,
        None => {
            return Err(Error::ProtocolError);
        },
    };
    proof {
        lemma_digits_val_nonneg(s@.subrange(0, first as int));
        lemma_digits_val_nonneg(s@.subrange(first + 1, second as int));
        lemma_digits_val_nonneg(s@.subrange(second + 1, s@.len() as int));
    }
    let total: u64 = hours as u64 * 3600 + minutes as u64 * 60 + seconds as u64;
    if total > u32::MAX as u64 {
        return Err(Error::ProtocolError);
    }
    Ok(total as u32)
}

// ---------------------------------------------------------------------------
// Boolean flags
// ---------------------------------------------------------------------------

/// Whether `c` is blank space for the purpose of trimming a flag value.
pub open spec fn is_blank(c: char) -> bool {
    c == ' ' || c == '\t' || c == '\n' || c == '\r'
}

/// Whether `s` is the single character `c` surrounded only by blanks.
pub open spec fn trimmed_is(s: Seq<char>, c: char) -> bool {
    exists|i: int|
        0 <= i < s.len() && s[i] == c && !is_blank(c) && (forall|j: int|
            0 <= j < s.len() && j != i ==> is_blank(#[trigger] s[j]))
}

fn is_blank_exec(c: char) -> (r: bool)
    ensures
        r == is_blank(c),
{
    c == ' ' || c == '\t' || c == '\n' || c == '\r'
}

/// Reads a device-reported boolean: `"0"` is false and `"1"` is true, with
/// surrounding blanks ignored; anything else is a protocol error.
pub fn parse_bool(s: &str) -> (r: Result<bool, Error>)
    ensures
        r == Ok::<bool, Error>(true) <==> trimmed_is(s@, '1'),
        r == Ok::<bool, Error>(false) <==> trimmed_is(s@, '0'),
        r matches Err(e) ==> e == Error::ProtocolError,
{
    let len = s.unicode_len();
    let mut first: usize = 0;
    while first < len && is_blank_exec(s.get_char(first))
        invariant
            len == s@.len(),
            first <= len,
            forall|k: int| 0 <= k < first ==> is_blank(#[trigger] s@[k]),
        decreases len - first,
    {
        first += 1;
    }
    if first >= len {
        return Err(Error::ProtocolError);
    }
    let mut last: usize = len - 1;
    while last > first && is_blank_exec(s.get_char(last))
        invariant
            len == s@.len(),
            first <= last < len,
            forall|k: int| last < k < len ==> is_blank(#[trigger] s@[k]),
        decreases last,
    {
        last -= 1;
    }
    if last != first {
        proof {
            assert(!is_blank(s@[first as int]));
            assert(!is_blank(s@[last as int]));
        }
        return Err(Error::ProtocolError);
    }
    let c = s.get_char(first);
    if c == '0' {
        proof {
            assert(trimmed_is(s@, '0'));
        }
        Ok(false)
    } else if c == '1' {
        proof {
            assert(trimmed_is(s@, '1'));
        }
        Ok(true)
    } else {
        Err(Error::ProtocolError)
    }
}

// ---------------------------------------------------------------------------
// XML PCDATA escaping
// ---------------------------------------------------------------------------

/// Replacement of one character inside PCDATA: `<` becomes `&lt;` and `&`
/// becomes `&amp;`; every other character stands for itself.
pub open spec fn escape_char_pcdata(c: char) -> Seq<char> {
    if c == '<' {
        seq!['&', 'l', 't', ';']
    } else if c == '&' {
        seq!['&', 'a', 'm', 'p', ';']
    } else {
        seq![c]
    }
}

/// PCDATA-escaped image of a character sequence.
pub open spec fn escape_pcdata(s: Seq<char>) -> Seq<char>
    decreases s.len(),
{
    if s.len() == 0 {
        Seq::empty()
    } else {
        escape_pcdata(s.drop_last()) + escape_char_pcdata(s.last())
    }
}

/// Relies on std's `String::push`: appends a single character at the end.
#[verifier::external_body]
fn push_char(s: &mut String, c: char)
    ensures
        final(s)@ == old(s)@.push(c),
{
    s.push(c);
}

/// Performs escaping of common XML characters inside PCDATA.
///
/// This function replaces several important markup characters with their
/// entity equivalents:
///
/// * `<` becomes `&lt;`
/// * `&` becomes `&amp;`
///
/// The resulting string is safe to use inside PCDATA sections but not inside
/// attribute values.
pub fn escape_str_pcdata(s: &str) -> (r: String)
    ensures
        r@ == escape_pcdata(s@),
{
    let len = s.unicode_len();
    let mut out = String::new();
    let mut i: usize = 0;
    while i < len
        invariant
            len == s@.len(),
            i <= len,
            out@ == escape_pcdata(s@.take(i as int)),
        decreases len - i,
    {
        proof {
            reveal_strlit("&lt;");
            reveal_strlit("&amp;");
        }
        let c = s.get_char(i);
        if c == '<' {
            out.append("&lt;");
            proof {
                assert("&lt;"@ =~= seq!['&', 'l', 't', ';']);
            }
        } else if c == '&' {
            out.append("&amp;");
            proof {
                assert("&amp;"@ =~= seq!['&', 'a', 'm', 'p', ';']);
            }
        } else {
            push_char(&mut out, c);
        }
        proof {
            assert(s@.take(i + 1).drop_last() =~= s@.take(i as int));
            assert(out@ =~= escape_pcdata(s@.take(i + 1)));
        }
        i += 1;
    }
    proof {
        assert(s@.take(len as int) =~= s@);
    }
    out
}

} // verus!
