//! The calendar date and the time of day, read from the system clock, and
//! the date as it names a storage partition.

use crate::text::{decimal, decimal_string};
use chrono::Datelike;
use vstd::prelude::*;
use vstd::string::*;

verus! {

/// Calls `chrono::Local::now` and reads year, month and day of the local
/// date. The month lies between 1 and 12, the day between 1 and 31.
#[verifier::external_body]
pub(crate) fn today() -> (date: (i32, u32, u32))
    ensures
        1 <= date.1 <= 12,
        1 <= date.2 <= 31,
{
    let now = chrono::Local::now();
    (now.year(), now.month(), now.day())
}

/// A decimal digit.
pub open spec fn is_digit(c: char) -> bool {
    '0' <= c <= '9'
}

/// Whether two digits stand in a text at a place and the next.
pub open spec fn two_digits_at(text: Seq<char>, at: int) -> bool {
    is_digit(text[at]) && is_digit(text[at + 1])
}

/// A year as a time stamp writes it: four digits, or a sign and four or
/// more digits.
pub open spec fn is_stamp_year(text: Seq<char>) -> bool {
    ||| text.len() == 4 && forall|i: int| 0 <= i < 4 ==> is_digit(#[trigger] text[i])
    ||| text.len() >= 5 && (text[0] == '+' || text[0] == '-') && forall|i: int|
        1 <= i < text.len() ==> is_digit(#[trigger] text[i])
}

/// Whether a text is a time stamp whose year takes `year` characters and
/// whose fraction of a second, with its point, takes `fraction`: the date
/// as `Y-MM-DD`, a `T`, the time as `HH:MM:SS`, the fraction if there is
/// one, and the offset from UTC as a sign and `HH:MM`.
pub open spec fn has_stamp_shape(text: Seq<char>, year: int, fraction: int) -> bool {
    &&& year >= 4
    &&& (fraction == 0 || fraction == 4 || fraction == 7 || fraction == 10)
    &&& text.len() == year + 21 + fraction
    &&& is_stamp_year(text.subrange(0, year))
    &&& text[year] == '-' && two_digits_at(text, year + 1)
    &&& text[year + 3] == '-' && two_digits_at(text, year + 4)
    &&& text[year + 6] == 'T' && two_digits_at(text, year + 7)
    &&& text[year + 9] == ':' && two_digits_at(text, year + 10)
    &&& text[year + 12] == ':' && two_digits_at(text, year + 13)
    &&& fraction > 0 ==> text[year + 15] == '.' && forall|i: int|
        year + 16 <= i < year + 15 + fraction ==> is_digit(#[trigger] text[i])
    &&& (text[year + 15 + fraction] == '+' || text[year + 15 + fraction] == '-')
    &&& two_digits_at(text, year + 16 + fraction)
    &&& text[year + 18 + fraction] == ':'
    &&& two_digits_at(text, year + 19 + fraction)
}

/// A time stamp as RFC 3339 writes it, with the offset from UTC in hours
/// and minutes and with no, three, six or nine digits of a fraction.
pub open spec fn is_timestamp_text(text: Seq<char>) -> bool {
    exists|year: int, fraction: int| has_stamp_shape(text, year, fraction)
}

/// Calls `chrono::Local::now` and `DateTime::to_rfc3339`, which writes the
/// local time with its offset from UTC as RFC 3339 says. The text has the
/// shape of such a time stamp; which time it gives is not stated.
#[verifier::external_body]
pub(crate) fn now_rfc3339() -> (stamp: String)
    ensures
        is_timestamp_text(stamp@),
{
    chrono::Local::now().to_rfc3339()
}

/// A number in decimal notation, with zeros in front up to a width.
pub open spec fn zero_padded(n: nat, width: nat) -> Seq<char> {
    if decimal(n).len() >= width {
        decimal(n)
    } else {
        Seq::new((width - decimal(n).len()) as nat, |i: int| '0') + decimal(n)
    }
}

/// A year as it is written in a partition name: four digits from 0 to 9999,
/// and beyond that a sign and at least four digits.
pub open spec fn year_text(year: int) -> Seq<char> {
    if 0 <= year <= 9999 {
        zero_padded(year as nat, 4)
    } else if year > 9999 {
        seq!['+'] + zero_padded(year as nat, 4)
    } else {
        seq!['-'] + zero_padded((-year) as nat, 4)
    }
}

/// The partition of a date: year, month and day, parted by `/`.
pub open spec fn partition_of(year: int, month: nat, day: nat) -> Seq<char> {
    year_text(year) + seq!['/'] + zero_padded(month, 2) + seq!['/'] + zero_padded(day, 2)
}

/// Every character of a decimal notation is a digit, and there is at least one.
pub proof fn lemma_decimal_is_digits(n: nat)
    ensures
        decimal(n).len() >= 1,
        forall|i: int| 0 <= i < decimal(n).len() ==> '0' <= #[trigger] decimal(n)[i] <= '9',
    decreases n,
{
    if n >= 10 {
        lemma_decimal_is_digits(n / 10);
    }
}

/// A partition name is not empty and begins with a digit or a sign, so it is
/// never an absolute path; and it ends with a digit.
pub proof fn lemma_partition_shape(year: int, month: nat, day: nat)
    ensures
        partition_of(year, month, day).len() >= 10,
        partition_of(year, month, day)[0] != '/',
        partition_of(year, month, day).last() != '/',
{
    lemma_decimal_is_digits(year as nat);
    lemma_decimal_is_digits((-year) as nat);
    lemma_decimal_is_digits(month);
    lemma_decimal_is_digits(day);
    let y = year_text(year);
    let m = zero_padded(month, 2);
    let d = zero_padded(day, 2);
    assert(y.len() >= 4 && y[0] != '/');
    assert(m.len() >= 2);
    assert(d.len() >= 2 && d.last() != '/');
}

/// Writes a number in decimal notation with zeros in front up to a width.
pub fn zero_padded_string(n: u64, width: usize) -> (text: String)
    ensures
        text@ == zero_padded(n as nat, width as nat),
{
    let digits = decimal_string(n);
    let len = digits.as_str().unicode_len();
    let mut text = String::new();
    let mut i: usize = len;
    proof {
        reveal_strlit("0");
    }
    while i < width
        invariant
            len <= i,
            len < width ==> i <= width,
            len >= width ==> i == len,
            text@ == Seq::new((i - len) as nat, |j: int| '0'),
            "0"@ == seq!['0'],
            len == digits@.len(),
            digits@ == decimal(n as nat),
        decreases width - i,
    {
        text.append("0");
        i = i + 1;
        assert(text@ =~= Seq::new((i - len) as nat, |j: int| '0'));
    }
    let ghost zeros = text@;
    text.append(digits.as_str());
    proof {
        if len >= width {
            assert(zeros =~= Seq::<char>::empty());
            assert(text@ =~= decimal(n as nat));
        } else {
            assert(i == width);
            assert(zeros =~= Seq::new((width - decimal(n as nat).len()) as nat, |i: int| '0'));
        }
    }
    text
}

/// The name of the partition of a date.
pub fn partition_dir(year: i32, month: u32, day: u32) -> (dir: String)
    ensures
        dir@ == partition_of(year as int, month as nat, day as nat),
{
    proof {
        reveal_strlit("+");
        reveal_strlit("-");
        reveal_strlit("/");
    }
    let mut dir = if 0 <= year && year <= 9999 {
        zero_padded_string(year as u64, 4)
    } else if year > 9999 {
        let mut signed = String::from_str("+");
        signed.append(zero_padded_string(year as u64, 4).as_str());
        signed
    } else {
        let mut signed = String::from_str("-");
        signed.append(zero_padded_string((-(year as i64)) as u64, 4).as_str());
        signed
    };
    assert(dir@ =~= year_text(year as int));
    dir.append("/");
    dir.append(zero_padded_string(month as u64, 2).as_str());
    dir.append("/");
    dir.append(zero_padded_string(day as u64, 2).as_str());
    assert(dir@ =~= partition_of(year as int, month as nat, day as nat));
    dir
}

} // verus!
