//! Concrete date formats: fixed-width digit layouts over the civil fields.
//!
//! Each format states its exact output as a sequence of characters and its
//! parser accepts precisely the well-formed strings of that layout.

use vstd::prelude::*;
use vstd::string::*;
use crate::date::{DateFormat, ParseError, UtcDateTime};

verus! {

/// The decimal value of the digit character `c`.
pub open spec fn char_val(c: char) -> int {
    c as int - 48
}

/// Whether `c` is a decimal digit.
pub open spec fn is_digit_char(c: char) -> bool {
    48 <= c as int <= 57
}

/// The digit character of the value `v`, 0 to 9.
pub open spec fn digit_char(v: int) -> char {
    if v == 0 {
        '0'
    } else if v == 1 {
        '1'
    } else if v == 2 {
        '2'
    } else if v == 3 {
        '3'
    } else if v == 4 {
        '4'
    } else if v == 5 {
        '5'
    } else if v == 6 {
        '6'
    } else if v == 7 {
        '7'
    } else if v == 8 {
        '8'
    } else {
        '9'
    }
}

/// `v` zero-padded to two digits.
pub open spec fn spec_pad2(v: int) -> Seq<char> {
    seq![digit_char(v / 10), digit_char(v % 10)]
}

/// `v` zero-padded to three digits.
pub open spec fn spec_pad3(v: int) -> Seq<char> {
    seq![digit_char(v / 100), digit_char((v / 10) % 10), digit_char(v % 10)]
}

/// `v` zero-padded to four digits.
pub open spec fn spec_pad4(v: int) -> Seq<char> {
    seq![digit_char(v / 1000), digit_char((v / 100) % 10), digit_char((v / 10) % 10), digit_char(v % 10)]
}

/// All of `s[i]` to `s[i + n - 1]` are decimal digits.
pub open spec fn digits_at(s: Seq<char>, i: int, n: int) -> bool {
    forall|j: int| i <= j < i + n ==> is_digit_char(s[j])
}

/// The value of the two digits at `i`.
pub open spec fn spec_num2(s: Seq<char>, i: int) -> int {
    char_val(s[i]) * 10 + char_val(s[i + 1])
}

/// The value of the three digits at `i`.
pub open spec fn spec_num3(s: Seq<char>, i: int) -> int {
    char_val(s[i]) * 100 + char_val(s[i + 1]) * 10 + char_val(s[i + 2])
}

/// The value of the four digits at `i`.
pub open spec fn spec_num4(s: Seq<char>, i: int) -> int {
    char_val(s[i]) * 1000 + char_val(s[i + 1]) * 100 + char_val(s[i + 2]) * 10 + char_val(s[i + 3])
}

/// Whether `c` is a decimal digit.
fn is_digit(c: char) -> (r: bool)
    ensures
        r == is_digit_char(c),
{
    let u = c as u32;
    48 <= u && u <= 57
}

/// The decimal value of the digit `c`.
fn digit_value(c: char) -> (r: u32)
    requires
        is_digit_char(c),
    ensures
        r == char_val(c),
        r < 10,
{
    (c as u32) - 48
}

/// The one-character string of the digit value `v`.
fn digit_str(v: u32) -> (r: &'static str)
    requires
        v < 10,
    ensures
        r@ =~= seq![digit_char(v as int)],
{
    if v == 0 {
        proof { reveal_strlit("0"); }
        "0"
    } else if v == 1 {
        proof { reveal_strlit("1"); }
        "1"
    } else if v == 2 {
        proof { reveal_strlit("2"); }
        "2"
    } else if v == 3 {
        proof { reveal_strlit("3"); }
        "3"
    } else if v == 4 {
        proof { reveal_strlit("4"); }
        "4"
    } else if v == 5 {
        proof { reveal_strlit("5"); }
        "5"
    } else if v == 6 {
        proof { reveal_strlit("6"); }
        "6"
    } else if v == 7 {
        proof { reveal_strlit("7"); }
        "7"
    } else if v == 8 {
        proof { reveal_strlit("8"); }
        "8"
    } else {
        proof { reveal_strlit("9"); }
        "9"
    }
}

/// Appends `v` zero-padded to two digits.
fn push_pad2(out: &mut String, v: u32)
    requires
        v < 100,
    ensures
        final(out)@ == old(out)@ + spec_pad2(v as int),
{
    out.append(digit_str(v / 10));
    out.append(digit_str(v % 10));
    proof {
        assert(out@ =~= old(out)@ + spec_pad2(v as int));
    }
}

/// Appends `v` zero-padded to three digits.
fn push_pad3(out: &mut String, v: u32)
    requires
        v < 1000,
    ensures
        final(out)@ == old(out)@ + spec_pad3(v as int),
{
    out.append(digit_str(v / 100));
    out.append(digit_str((v / 10) % 10));
    out.append(digit_str(v % 10));
    proof {
        assert(out@ =~= old(out)@ + spec_pad3(v as int));
    }
}

/// Appends `v` zero-padded to four digits.
fn push_pad4(out: &mut String, v: u32)
    requires
        v < 10000,
    ensures
        final(out)@ == old(out)@ + spec_pad4(v as int),
{
    out.append(digit_str(v / 1000));
    out.append(digit_str((v / 100) % 10));
    out.append(digit_str((v / 10) % 10));
    out.append(digit_str(v % 10));
    proof {
        assert(out@ =~= old(out)@ + spec_pad4(v as int));
    }
}

/// Reads the two digits at `i`, or nothing when either is no digit.
fn read2(s: &str, i: usize) -> (r: Option<u32>)
    requires
        i + 2 <= s@.len() && s@.len() <= usize::MAX,
    ensures
        r is Some <==> digits_at(s@, i as int, 2),
        r matches Some(v) ==> v == spec_num2(s@, i as int) && v < 100,
{
    let c0 = s.get_char(i);
    let c1 = s.get_char(i + 1);
    if is_digit(c0) && is_digit(c1) {
        let v = digit_value(c0) * 10 + digit_value(c1);
        proof {
            assert forall|j: int| i <= j < i + 2 implies is_digit_char(s@[j]) by {
                if j == i {
                } else {
                    assert(j == i + 1);
                }
            }
        }
        Some(v)
    } else {
        proof {
            if digits_at(s@, i as int, 2) {
                assert(is_digit_char(s@[i as int]));
                assert(is_digit_char(s@[i as int + 1]));
            }
        }
        None
    }
}

/// Reads the three digits at `i`, or nothing when one is no digit.
fn read3(s: &str, i: usize) -> (r: Option<u32>)
    requires
        i + 3 <= s@.len() && s@.len() <= usize::MAX,
    ensures
        r is Some <==> digits_at(s@, i as int, 3),
        r matches Some(v) ==> v == spec_num3(s@, i as int) && v < 1000,
{
    let c0 = s.get_char(i);
    let c1 = s.get_char(i + 1);
    let c2 = s.get_char(i + 2);
    if is_digit(c0) && is_digit(c1) && is_digit(c2) {
        let v = digit_value(c0) * 100 + digit_value(c1) * 10 + digit_value(c2);
        proof {
            assert forall|j: int| i <= j < i + 3 implies is_digit_char(s@[j]) by {
                if j == i {
                } else if j == i + 1 {
                } else {
                    assert(j == i + 2);
                }
            }
        }
        Some(v)
    } else {
        proof {
            if digits_at(s@, i as int, 3) {
                assert(is_digit_char(s@[i as int]));
                assert(is_digit_char(s@[i as int + 1]));
                assert(is_digit_char(s@[i as int + 2]));
            }
        }
        None
    }
}

/// Reads the four digits at `i`, or nothing when one is no digit.
fn read4(s: &str, i: usize) -> (r: Option<u32>)
    requires
        i + 4 <= s@.len() && s@.len() <= usize::MAX,
    ensures
        r is Some <==> digits_at(s@, i as int, 4),
        r matches Some(v) ==> v == spec_num4(s@, i as int) && v < 10000,
{
    let c0 = s.get_char(i);
    let c1 = s.get_char(i + 1);
    let c2 = s.get_char(i + 2);
    let c3 = s.get_char(i + 3);
    if is_digit(c0) && is_digit(c1) && is_digit(c2) && is_digit(c3) {
        let v = digit_value(c0) * 1000 + digit_value(c1) * 100 + digit_value(c2) * 10 + digit_value(c3);
        proof {
            assert forall|j: int| i <= j < i + 4 implies is_digit_char(s@[j]) by {
                if j == i {
                } else if j == i + 1 {
                } else if j == i + 2 {
                } else {
                    assert(j == i + 3);
                }
            }
        }
        Some(v)
    } else {
        proof {
            if digits_at(s@, i as int, 4) {
                assert(is_digit_char(s@[i as int]));
                assert(is_digit_char(s@[i as int + 1]));
                assert(is_digit_char(s@[i as int + 2]));
                assert(is_digit_char(s@[i as int + 3]));
            }
        }
        None
    }
}

/// A digit character reads back as its value.
proof fn lemma_digit_char_val(v: int)
    requires
        0 <= v < 10,
    ensures
        is_digit_char(digit_char(v)),
        char_val(digit_char(v)) == v,
{
}

/// Two padded digits read back as their value.
proof fn lemma_pad2_num(v: int)
    requires
        0 <= v < 100,
    ensures
        digits_at(spec_pad2(v), 0, 2),
        spec_num2(spec_pad2(v), 0) == v,
{
    lemma_digit_char_val(v / 10);
    lemma_digit_char_val(v % 10);
}

/// Three padded digits read back as their value.
proof fn lemma_pad3_num(v: int)
    requires
        0 <= v < 1000,
    ensures
        digits_at(spec_pad3(v), 0, 3),
        spec_num3(spec_pad3(v), 0) == v,
{
    lemma_digit_char_val(v / 100);
    lemma_digit_char_val((v / 10) % 10);
    lemma_digit_char_val(v % 10);
    assert(v == 10 * (v / 10) + v % 10);
    assert(v / 10 == 10 * (v / 100) + (v / 10) % 10);
}

/// Four padded digits read back as their value.
proof fn lemma_pad4_num(v: int)
    requires
        0 <= v < 10000,
    ensures
        digits_at(spec_pad4(v), 0, 4),
        spec_num4(spec_pad4(v), 0) == v,
{
    lemma_digit_char_val(v / 1000);
    lemma_digit_char_val((v / 100) % 10);
    lemma_digit_char_val((v / 10) % 10);
    lemma_digit_char_val(v % 10);
    assert(v == 10 * (v / 10) + v % 10);
    assert(v / 10 == 10 * (v / 100) + (v / 10) % 10);
    assert(v / 100 == 10 * (v / 1000) + (v / 100) % 10);
}

/// The `basic_date_time` layout: year, month, day, a literal `T`, hour,
/// minute, second, a literal `.`, milliseconds, and a literal `Z`.
#[derive(Clone, Copy, Debug, Default)]
pub struct BasicDateTime;

/// The text of `d` under the `basic_date_time` layout.
pub open spec fn spec_basic_date_time(d: UtcDateTime) -> Seq<char> {
    spec_pad4(d.year as int) + spec_pad2(d.month as int) + spec_pad2(d.day as int) + seq!['T']
        + spec_pad2(d.hour as int) + spec_pad2(d.minute as int) + spec_pad2(d.second as int)
        + seq!['.'] + spec_pad3(d.milli as int) + seq!['Z']
}

/// The value read from `s` under the `basic_date_time` layout, or nothing
/// when `s` does not have that shape or names no valid civil value.
pub open spec fn spec_basic_date_time_parse(s: Seq<char>) -> Option<UtcDateTime> {
    if s.len() == 20 && digits_at(s, 0, 8) && s[8] == 'T' && digits_at(s, 9, 6) && s[15] == '.'
        && digits_at(s, 16, 3) && s[19] == 'Z' {
        let d = UtcDateTime {
            year: spec_num4(s, 0) as i32,
            month: spec_num2(s, 4) as u32,
            day: spec_num2(s, 6) as u32,
            hour: spec_num2(s, 9) as u32,
            minute: spec_num2(s, 11) as u32,
            second: spec_num2(s, 13) as u32,
            milli: spec_num3(s, 16) as u32,
        };
        if d.wf() {
            Some(d)
        } else {
            None
        }
    } else {
        None
    }
}

/// What `basic_date_time` writes, it reads back: parsing the text of any
/// valid value yields exactly that value.
pub proof fn lemma_basic_date_time_round_trip(d: UtcDateTime)
    requires
        d.wf(),
    ensures
        spec_basic_date_time_parse(spec_basic_date_time(d)) == Some(d),
{
    let y = d.year as int;
    let mo = d.month as int;
    let dd = d.day as int;
    let h = d.hour as int;
    let mi = d.minute as int;
    let sec = d.second as int;
    let ms = d.milli as int;
    let s = spec_basic_date_time(d);
    assert(s =~= seq![
        digit_char(y / 1000), digit_char((y / 100) % 10), digit_char((y / 10) % 10), digit_char(y % 10),
        digit_char(mo / 10), digit_char(mo % 10),
        digit_char(dd / 10), digit_char(dd % 10),
        'T',
        digit_char(h / 10), digit_char(h % 10),
        digit_char(mi / 10), digit_char(mi % 10),
        digit_char(sec / 10), digit_char(sec % 10),
        '.',
        digit_char(ms / 100), digit_char((ms / 10) % 10), digit_char(ms % 10),
        'Z',
    ]);
    lemma_pad4_num(y);
    lemma_pad2_num(mo);
    lemma_pad2_num(dd);
    lemma_pad2_num(h);
    lemma_pad2_num(mi);
    lemma_pad2_num(sec);
    lemma_pad3_num(ms);
    assert(digits_at(s, 0, 8));
    assert(digits_at(s, 9, 6));
    assert(digits_at(s, 16, 3));
    assert(spec_num4(s, 0) == y);
    assert(spec_num2(s, 4) == mo);
    assert(spec_num2(s, 6) == dd);
    assert(spec_num2(s, 9) == h);
    assert(spec_num2(s, 11) == mi);
    assert(spec_num2(s, 13) == sec);
    assert(spec_num3(s, 16) == ms);
}

impl DateFormat for BasicDateTime {
    open spec fn spec_name() -> Seq<char> {
        "basic_date_time"@
    }

    open spec fn spec_format(d: UtcDateTime) -> Seq<char> {
        spec_basic_date_time(d)
    }

    open spec fn spec_parse(s: Seq<char>) -> Option<UtcDateTime> {
        spec_basic_date_time_parse(s)
    }

    proof fn lemma_parse_wf(s: Seq<char>) {
    }

    fn name() -> (r: String) {
        String::from_str("basic_date_time")
    }

    fn format(d: &UtcDateTime) -> (r: String) {
        let mut out = String::new();
        push_pad4(&mut out, d.year as u32);
        push_pad2(&mut out, d.month);
        push_pad2(&mut out, d.day);
        out.append("T");
        push_pad2(&mut out, d.hour);
        push_pad2(&mut out, d.minute);
        push_pad2(&mut out, d.second);
        out.append(".");
        push_pad3(&mut out, d.milli);
        out.append("Z");
        proof {
            reveal_strlit("T");
            reveal_strlit(".");
            reveal_strlit("Z");
            assert(out@ =~= spec_basic_date_time(*d));
        }
        out
    }

    fn parse(s: &str) -> (r: Result<UtcDateTime, ParseError>) {
        if s.unicode_len() != 20 {
            return Err(ParseError);
        }
        if s.get_char(8) != 'T' || s.get_char(15) != '.' || s.get_char(19) != 'Z' {
            return Err(ParseError);
        }
        let year = match read4(s, 0) {
            Some(v) => v,
            None => { return Err(ParseError); },
        };
        let month = match read2(s, 4) {
            Some(v) => v,
            None => { return Err(ParseError); },
        };
        let day = match read2(s, 6) {
            Some(v) => v,
            None => { return Err(ParseError); },
        };
        let hour = match read2(s, 9) {
            Some(v) => v,
            None => { return Err(ParseError); },
        };
        let minute = match read2(s, 11) {
            Some(v) => v,
            None => { return Err(ParseError); },
        };
        let second = match read2(s, 13) {
            Some(v) => v,
            None => { return Err(ParseError); },
        };
        let milli = match read3(s, 16) {
            Some(v) => v,
            None => { return Err(ParseError); },
        };
        proof {
            assert(digits_at(s@, 0, 8));
            assert(digits_at(s@, 9, 6));
        }
        let d = UtcDateTime {
            year: year as i32,
            month,
            day,
            hour,
            minute,
            second,
            milli,
        };
        if d.valid() {
            Ok(d)
        } else {
            Err(ParseError)
        }
    }
}

/// The `basic_date` layout: year, month and day alone; parsing yields
/// midnight of that day.
#[derive(Clone, Copy, Debug, Default)]
pub struct BasicDate;

/// The text of `d` under the `basic_date` layout.
pub open spec fn spec_basic_date(d: UtcDateTime) -> Seq<char> {
    spec_pad4(d.year as int) + spec_pad2(d.month as int) + spec_pad2(d.day as int)
}

/// The value read from `s` under the `basic_date` layout, or nothing when
/// `s` does not have that shape or names no valid day.
pub open spec fn spec_basic_date_parse(s: Seq<char>) -> Option<UtcDateTime> {
    if s.len() == 8 && digits_at(s, 0, 8) {
        let d = UtcDateTime {
            year: spec_num4(s, 0) as i32,
            month: spec_num2(s, 4) as u32,
            day: spec_num2(s, 6) as u32,
            hour: 0,
            minute: 0,
            second: 0,
            milli: 0,
        };
        if d.wf() {
            Some(d)
        } else {
            None
        }
    } else {
        None
    }
}

/// What `basic_date` writes, it reads back: parsing the text of any valid
/// midnight value yields exactly that value.
pub proof fn lemma_basic_date_round_trip(d: UtcDateTime)
    requires
        d.wf(),
        d.hour == 0 && d.minute == 0 && d.second == 0 && d.milli == 0,
    ensures
        spec_basic_date_parse(spec_basic_date(d)) == Some(d),
{
    let y = d.year as int;
    let mo = d.month as int;
    let dd = d.day as int;
    let s = spec_basic_date(d);
    assert(s =~= seq![
        digit_char(y / 1000), digit_char((y / 100) % 10), digit_char((y / 10) % 10), digit_char(y % 10),
        digit_char(mo / 10), digit_char(mo % 10),
        digit_char(dd / 10), digit_char(dd % 10),
    ]);
    lemma_pad4_num(y);
    lemma_pad2_num(mo);
    lemma_pad2_num(dd);
    assert(digits_at(s, 0, 8));
    assert(spec_num4(s, 0) == y);
    assert(spec_num2(s, 4) == mo);
    assert(spec_num2(s, 6) == dd);
}

impl DateFormat for BasicDate {
    open spec fn spec_name() -> Seq<char> {
        "basic_date"@
    }

    open spec fn spec_format(d: UtcDateTime) -> Seq<char> {
        spec_basic_date(d)
    }

    open spec fn spec_parse(s: Seq<char>) -> Option<UtcDateTime> {
        spec_basic_date_parse(s)
    }

    proof fn lemma_parse_wf(s: Seq<char>) {
    }

    fn name() -> (r: String) {
        String::from_str("basic_date")
    }

    fn format(d: &UtcDateTime) -> (r: String) {
        let mut out = String::new();
        push_pad4(&mut out, d.year as u32);
        push_pad2(&mut out, d.month);
        push_pad2(&mut out, d.day);
        proof {
            assert(out@ =~= spec_basic_date(*d));
        }
        out
    }

    fn parse(s: &str) -> (r: Result<UtcDateTime, ParseError>) {
        if s.unicode_len() != 8 {
            return Err(ParseError);
        }
        let year = match read4(s, 0) {
            Some(v) => v,
            None => { return Err(ParseError); },
        };
        let month = match read2(s, 4) {
            Some(v) => v,
            None => { return Err(ParseError); },
        };
        let day = match read2(s, 6) {
            Some(v) => v,
            None => { return Err(ParseError); },
        };
        proof {
            assert(digits_at(s@, 0, 8));
        }
        let d = UtcDateTime {
            year: year as i32,
            month,
            day,
            hour: 0,
            minute: 0,
            second: 0,
            milli: 0,
        };
        if d.valid() {
            Ok(d)
        } else {
            Err(ParseError)
        }
    }
}

/// The format a date is carried under when none is named.
pub type DefaultDateFormat = BasicDateTime;

} // verus!

