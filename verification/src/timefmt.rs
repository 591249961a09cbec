//! Timestamped file names for saved transcripts.
//!
//! The clock itself lives outside the library: the caller reads the
//! local time and hands its fields over as plain values. The library
//! renders the `YYYYMMDD_HHMMSS` stamp and builds the file names.

use vstd::prelude::*;

verus! {

/// A local calendar time, field by field.
pub struct ClockTime {
    pub year: u16,
    pub month: u8,
    pub day: u8,
    pub hour: u8,
    pub minute: u8,
    pub second: u8,
}

impl ClockTime {
    /// The fields describe a calendar time a clock can report.
    pub open spec fn wf(self) -> bool {
        &&& self.year <= 9999
        &&& 1 <= self.month <= 12
        &&& 1 <= self.day <= 31
        &&& self.hour < 24
        &&& self.minute < 60
        &&& self.second < 60
    }
}

/// The character of one decimal digit.
pub open spec fn digit_char(d: int) -> char {
    if d == 0 {
        '0'
    } else if d == 1 {
        '1'
    } else if d == 2 {
        '2'
    } else if d == 3 {
        '3'
    } else if d == 4 {
        '4'
    } else if d == 5 {
        '5'
    } else if d == 6 {
        '6'
    } else if d == 7 {
        '7'
    } else if d == 8 {
        '8'
    } else {
        '9'
    }
}

/// A number rendered as exactly two decimal digits, zero-padded.
pub open spec fn dec2(n: int) -> Seq<char> {
    seq![digit_char(n / 10 % 10), digit_char(n % 10)]
}

/// A number rendered as exactly four decimal digits, zero-padded.
pub open spec fn dec4(n: int) -> Seq<char> {
    seq![
        digit_char(n / 1000 % 10),
        digit_char(n / 100 % 10),
        digit_char(n / 10 % 10),
        digit_char(n % 10),
    ]
}

/// The stamp `YYYYMMDD_HHMMSS` of a clock time.
pub open spec fn stamp_chars(t: ClockTime) -> Seq<char> {
    dec4(t.year as int) + dec2(t.month as int) + dec2(t.day as int) + seq!['_'] + dec2(
        t.hour as int,
    ) + dec2(t.minute as int) + dec2(t.second as int)
}

/// The name of an explicitly saved transcript file.
pub open spec fn save_name_chars(t: ClockTime) -> Seq<char> {
    "whisperlite_transcript_"@ + stamp_chars(t) + ".txt"@
}

/// The name of a transcript file written by the batch mode for the
/// given user name.
pub open spec fn batch_name_chars(user: Seq<char>, t: ClockTime) -> Seq<char> {
    user + seq!['_'] + stamp_chars(t) + ".txt"@
}

fn digit_str(d: u8) -> (r: &'static str)
    requires
        d < 10,
    ensures
        r@ == seq![digit_char(d as int)],
{
    proof {
        reveal_strlit("0");
        reveal_strlit("1");
        reveal_strlit("2");
        reveal_strlit("3");
        reveal_strlit("4");
        reveal_strlit("5");
        reveal_strlit("6");
        reveal_strlit("7");
        reveal_strlit("8");
        reveal_strlit("9");
    }
    let r = match d {
        0 => "0",
        1 => "1",
        2 => "2",
        3 => "3",
        4 => "4",
        5 => "5",
        6 => "6",
        7 => "7",
        8 => "8",
        _ => "9",
    };
    proof {
        assert(r@ =~= seq![digit_char(d as int)]);
    }
    r
}

fn append_dec2(out: &mut String, n: u8)
    requires
        n < 100,
    ensures
        final(out)@ == old(out)@ + dec2(n as int),
{
    out.append(digit_str(n / 10));
    out.append(digit_str(n % 10));
    proof {
        assert(n as int / 10 % 10 == n as int / 10);
        assert(old(out)@ + seq![digit_char(n as int / 10)] + seq![digit_char(n as int % 10)] =~= old(
            out,
        )@ + dec2(n as int));
    }
}

fn append_dec4(out: &mut String, n: u16)
    requires
        n < 10000,
    ensures
        final(out)@ == old(out)@ + dec4(n as int),
{
    out.append(digit_str((n / 1000) as u8));
    out.append(digit_str((n / 100 % 10) as u8));
    out.append(digit_str((n / 10 % 10) as u8));
    out.append(digit_str((n % 10) as u8));
    proof {
        assert(n as int / 1000 % 10 == n as int / 1000);
        assert(old(out)@ + seq![digit_char(n as int / 1000)] + seq![digit_char(n as int / 100 % 10)]
            + seq![digit_char(n as int / 10 % 10)] + seq![digit_char(n as int % 10)] =~= old(out)@
            + dec4(n as int));
    }
}

/// Renders the `YYYYMMDD_HHMMSS` stamp of a clock time.
pub fn format_stamp(t: &ClockTime) -> (r: String)
    requires
        t.wf(),
    ensures
        r@ == stamp_chars(*t),
{
    let mut r = String::new();
    append_dec4(&mut r, t.year);
    append_dec2(&mut r, t.month);
    append_dec2(&mut r, t.day);
    r.append("_");
    append_dec2(&mut r, t.hour);
    append_dec2(&mut r, t.minute);
    append_dec2(&mut r, t.second);
    proof {
        reveal_strlit("_");
        assert("_"@ =~= seq!['_']);
        assert(r@ =~= stamp_chars(*t));
    }
    r
}

/// The file name an explicit save writes under the downloads
/// directory: the fixed prefix, the time stamp, and the extension.
pub fn save_file_name(t: &ClockTime) -> (r: String)
    requires
        t.wf(),
    ensures
        r@ == save_name_chars(*t),
{
    let mut r = String::from_str("whisperlite_transcript_");
    let stamp = format_stamp(t);
    r.append(stamp.as_str());
    r.append(".txt");
    proof {
        assert(r@ =~= save_name_chars(*t));
    }
    r
}

/// The file name the batch mode writes under its output directory:
/// the invoking user's name, the time stamp, and the extension.
pub fn batch_file_name(user: &String, t: &ClockTime) -> (r: String)
    requires
        t.wf(),
    ensures
        r@ == batch_name_chars(user@, *t),
{
    let mut r = user.clone();
    r.append("_");
    let stamp = format_stamp(t);
    r.append(stamp.as_str());
    r.append(".txt");
    proof {
        reveal_strlit("_");
        assert("_"@ =~= seq!['_']);
        assert(r@ =~= batch_name_chars(user@, *t));
    }
    r
}

} // verus!
