//! Small string helpers shared by the adapters.

use vstd::prelude::*;
use vstd::string::*;

verus! {

/// Whether two texts are the same.
pub open spec fn same_text(a: Seq<char>, b: Seq<char>) -> bool {
    a == b
}

/// `str::eq` of std: two string slices are equal exactly when they hold the
/// same characters.
#[verifier::external_body]
pub(crate) fn str_eq(a: &str, b: &str) -> (r: bool)
    ensures
        r == same_text(a@, b@),
{
    a == b
}

/// `left` followed by `right`.
pub fn concat2(left: &str, right: &str) -> (r: String)
    ensures
        r@ == left@ + right@,
{
    let mut s = String::from_str(left);
    s.append(right);
    s
}

/// `a`, `b` and `c` in a row.
pub fn concat3(a: &str, b: &str, c: &str) -> (r: String)
    ensures
        r@ == a@ + b@ + c@,
{
    let mut s = String::from_str(a);
    s.append(b);
    s.append(c);
    s
}

/// The text that `str::to_lowercase` of std makes of a text: every character
/// in its lower case, as Unicode defines it.
pub uninterp spec fn lowercase(s: Seq<char>) -> Seq<char>;

/// `str::to_lowercase` of std.
#[verifier::external_body]
pub(crate) fn to_lowercase(s: &str) -> (r: String)
    ensures
        r@ == lowercase(s@),
{
    s.to_lowercase()
}

/// Whether every character of `s` is a decimal digit of ASCII.
pub open spec fn all_digits(s: Seq<char>) -> bool {
    forall|i: int| 0 <= i < s.len() ==> '0' <= #[trigger] s[i] && s[i] <= '9'
}

/// The number that the decimal digits `s` spell.
pub open spec fn digits_value(s: Seq<char>) -> int
    decreases s.len(),
{
    if s.len() == 0 {
        0
    } else {
        digits_value(s.drop_last()) * 10 + (s.last() as int - '0' as int)
    }
}

/// What stands behind the sign of `s`, if it begins with one.
pub open spec fn unsigned_part(s: Seq<char>) -> Seq<char> {
    if s.len() > 0 && (s[0] == '-' || s[0] == '+') {
        s.subrange(1, s.len() as int)
    } else {
        s
    }
}

/// The number that a text spells: an optional sign, `+` or `-`, and then
/// one decimal digit or more, and nothing else; the number has to fit.
pub open spec fn parsed_i64(s: Seq<char>) -> Option<i64> {
    let digits = unsigned_part(s);
    let value = if s.len() > 0 && s[0] == '-' {
        -digits_value(digits)
    } else {
        digits_value(digits)
    };
    if digits.len() > 0 && all_digits(digits) && i64::MIN <= value <= i64::MAX {
        Some(value as i64)
    } else {
        None
    }
}

/// `str::parse::<i64>` of std: it reads an optional sign and decimal digits,
/// and fails on an empty text, on any other character and on a number that
/// does not fit.
#[verifier::external_body]
pub(crate) fn parse_i64(s: &str) -> (r: Option<i64>)
    ensures
        r == parsed_i64(s@),
{
    s.parse::<i64>().ok()
}

/// The character of the decimal digit `d`.
pub open spec fn digit_char(d: int) -> char {
    if d == 0 {
        '0'
    } else if d == 1 {
        '1'
    } else if d == 2 {
        '2'
    } else if d == 3 {
        '3'
    } else if d == 4 {
        '4'
    } else if d == 5 {
        '5'
    } else if d == 6 {
        '6'
    } else if d == 7 {
        '7'
    } else if d == 8 {
        '8'
    } else {
        '9'
    }
}

/// The decimal digits of `n`, without leading zeros.
pub open spec fn decimal_digits(n: nat) -> Seq<char>
    decreases n,
{
    if n < 10 {
        Seq::empty().push(digit_char(n as int))
    } else {
        decimal_digits(n / 10).push(digit_char((n % 10) as int))
    }
}

/// `n` in decimal, with a minus sign where it is negative.
pub open spec fn decimal_text(n: int) -> Seq<char> {
    if n < 0 {
        Seq::empty().push('-') + decimal_digits((-n) as nat)
    } else {
        decimal_digits(n as nat)
    }
}

/// `i64::to_string` of std: the number in decimal, with a minus sign where it
/// is negative.
#[verifier::external_body]
pub(crate) fn i64_to_string(n: i64) -> (r: String)
    ensures
        r@ == decimal_text(n as int),
{
    n.to_string()
}

/// `Path::extension` of std: what follows the last dot of the file name in
/// `path`, or the empty text. Where a file name ends depends on the platform,
/// so nothing is stated of the result.
#[verifier::external_body]
pub(crate) fn path_extension(path: &str) -> (r: String) {
    std::path::Path::new(path).extension().and_then(|e| e.to_str()).unwrap_or("").to_string()
}

/// `Path::file_name` of std: the last component of `path`, if it has one.
/// Where a component ends depends on the platform, so nothing is stated of
/// the result.
#[verifier::external_body]
pub(crate) fn path_file_name(path: &str) -> (r: Option<String>) {
    std::path::Path::new(path).file_name().and_then(|n| n.to_str()).map(|n| n.to_string())
}

/// The text of an optional string, or the empty text.
pub open spec fn text_or_empty(o: Option<Seq<char>>) -> Seq<char> {
    match o {
        Some(s) => s,
        None => Seq::empty(),
    }
}

/// The string inside, or an empty one.
pub fn string_or_empty(o: &Option<String>) -> (r: String)
    ensures
        r@ == text_or_empty(crate::im::gateway::opt_text(*o)),
{
    match o {
        Some(s) => s.clone(),
        None => String::new(),
    }
}

/// Whether `s` holds no character.
pub fn is_blank(s: &String) -> (b: bool)
    ensures
        b == (s@.len() == 0),
{
    s.as_str().is_empty()
}

/// The characters of `s`, one by one.
pub fn chars_of(s: &str) -> (v: Vec<char>)
    ensures
        v@ == s@,
{
    let mut v: Vec<char> = Vec::new();
    for c in it: s.chars()
        invariant
            v@ == it.seq().take(it.index() as int),
            it.seq() == s@,
    {
        v.push(c);
    }
    v
}

/// The place of the last `c` among the first `limit` characters of `s`, or
/// -1 where there is none.
pub open spec fn last_index_of(s: Seq<char>, c: char, limit: int) -> int
    decreases limit,
{
    if limit <= 0 {
        -1
    } else if s[limit - 1] == c {
        limit - 1
    } else {
        last_index_of(s, c, limit - 1)
    }
}

/// The place of the last `c` among the first `limit` characters of `s`.
pub fn rfind_char(s: &Vec<char>, c: char, limit: usize) -> (r: Option<usize>)
    requires
        limit <= s.len(),
    ensures
        match r {
            Some(i) => i == last_index_of(s@, c, limit as int) && i < limit,
            None => last_index_of(s@, c, limit as int) == -1,
        },
{
    let mut i: usize = limit;
    while i > 0
        invariant
            i <= limit <= s.len(),
            last_index_of(s@, c, limit as int) == last_index_of(s@, c, i as int),
        decreases i,
    {
        if s[i - 1] == c {
            return Some(i - 1);
        }
        i -= 1;
    }
    None
}

/// The last `c` among the first `limit` characters stands before `limit`,
/// and the character there is `c`.
pub proof fn lemma_last_index_of(s: Seq<char>, c: char, limit: int)
    requires
        0 <= limit <= s.len(),
    ensures
        -1 <= last_index_of(s, c, limit) < limit || limit == 0,
        last_index_of(s, c, limit) >= 0 ==> s[last_index_of(s, c, limit)] == c,
        last_index_of(s, c, limit) >= -1,
    decreases limit,
{
    if limit > 0 && s[limit - 1] != c {
        lemma_last_index_of(s, c, limit - 1);
    }
}

/// Whether `needle` stands somewhere in `hay`.
pub open spec fn contains_text(hay: Seq<char>, needle: Seq<char>) -> bool {
    exists|i: int| 0 <= i <= hay.len() - needle.len() && #[trigger] hay.subrange(i, i + needle.len()) == needle
}

/// `str::contains` of std with a string as pattern: whether the pattern
/// matches a part of the text.
#[verifier::external_body]
pub(crate) fn str_contains(hay: &str, needle: &str) -> (r: bool)
    ensures
        r == contains_text(hay@, needle@),
{
    hay.contains(needle)
}

/// Whether `hay` begins with `needle`.
pub open spec fn starts_with_text(hay: Seq<char>, needle: Seq<char>) -> bool {
    needle.len() <= hay.len() && hay.subrange(0, needle.len() as int) == needle
}

/// `str::starts_with` of std with a string as pattern: whether the pattern
/// matches the beginning of the text.
#[verifier::external_body]
pub(crate) fn str_starts_with(hay: &str, needle: &str) -> (r: bool)
    ensures
        r == starts_with_text(hay@, needle@),
{
    hay.starts_with(needle)
}

/// The text that `str::replace` of std makes of `s`: every match of `from`,
/// found from left to right without overlap, gives way to `to`.
pub uninterp spec fn replaced(s: Seq<char>, from: Seq<char>, to: Seq<char>) -> Seq<char>;

/// `str::replace` of std with a string as pattern.
#[verifier::external_body]
pub(crate) fn str_replace(s: &str, from: &str, to: &str) -> (r: String)
    ensures
        r@ == replaced(s@, from@, to@),
{
    s.replace(from, to)
}

/// The text that `str::trim` of std leaves of `s`: `s` without the white
/// space, as Unicode defines it, at its two ends.
pub uninterp spec fn trimmed(s: Seq<char>) -> Seq<char>;

/// `str::trim` of std.
#[verifier::external_body]
pub(crate) fn str_trim(s: &str) -> (r: String)
    ensures
        r@ == trimmed(s@),
{
    s.trim().to_string()
}

/// `chrono::Local::now` and `DateTime::format`: the local time of the
/// machine as year, month, day, hour, minute and second. It depends on the
/// clock and on the time zone, so nothing is stated of the result.
#[verifier::external_body]
pub(crate) fn local_time_text() -> (r: String) {
    chrono::Local::now().format("%Y-%m-%d %H:%M:%S").to_string()
}

} // verus!
