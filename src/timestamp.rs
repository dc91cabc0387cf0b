use vstd::prelude::*;
use vstd::string::StringExecFns;

use crate::error::FormatError;

verus! {

/// A moment in UTC, split into its calendar and clock fields.
#[derive(Debug, Clone, Copy, PartialEq, Eq, Structural)]
pub struct Timestamp {
    pub year: i32,
    pub month: u8,
    pub day: u8,
    pub hour: u8,
    pub minute: u8,
    pub second: u8,
    pub nanosecond: u32,
}

impl Timestamp {
    /// Each field lies in the range of its calendar or clock unit.
    pub open spec fn wf(self) -> bool {
        1 <= self.month <= 12 && 1 <= self.day <= 31 && self.hour < 24 && self.minute < 60
            && self.second < 60 && self.nanosecond < 1_000_000_000
    }

    /// A valid moment whose year fits the pattern's four digits.
    pub open spec fn renderable(self) -> bool {
        self.wf() && 0 <= self.year <= 9999
    }
}

/// The decimal digit for `d`, which is below ten.
pub open spec fn digit_char(d: nat) -> char {
    if d == 0 {
        '0'
    } else if d == 1 {
        '1'
    } else if d == 2 {
        '2'
    } else if d == 3 {
        '3'
    } else if d == 4 {
        '4'
    } else if d == 5 {
        '5'
    } else if d == 6 {
        '6'
    } else if d == 7 {
        '7'
    } else if d == 8 {
        '8'
    } else {
        '9'
    }
}

/// `c` is one of the ASCII digits.
pub open spec fn is_digit(c: char) -> bool {
    '0' <= c && c <= '9'
}

/// The last `width` decimal digits of `v`, zero-padded on the left.
pub open spec fn digits(v: nat, width: nat) -> Seq<char>
    decreases width,
{
    if width == 0 {
        Seq::empty()
    } else {
        digits(v / 10, (width - 1) as nat).push(digit_char(v % 10))
    }
}

/// `YYYY-MM-DDTHH:MM:SS.ffffffZ`: the fields of `t`, zero-padded, with the
/// sub-second part cut to microseconds.
pub open spec fn timestamp_text(t: Timestamp) -> Seq<char> {
    digits(t.year as nat, 4) + seq!['-'] + digits(t.month as nat, 2) + seq!['-'] + digits(
        t.day as nat,
        2,
    ) + seq!['T'] + digits(t.hour as nat, 2) + seq![':'] + digits(t.minute as nat, 2) + seq![':']
        + digits(t.second as nat, 2) + seq!['.'] + digits((t.nanosecond / 1000) as nat, 6) + seq![
        'Z',
    ]
}

/// The positions of a timestamp's separators.
pub open spec fn is_separator_position(i: int) -> bool {
    i == 4 || i == 7 || i == 10 || i == 13 || i == 16 || i == 19 || i == 26
}

/// `s` has the shape `\d{4}-\d{2}-\d{2}T\d{2}:\d{2}:\d{2}\.\d{6}Z`.
pub open spec fn has_timestamp_shape(s: Seq<char>) -> bool {
    &&& s.len() == 27
    &&& s[4] == '-' && s[7] == '-' && s[10] == 'T' && s[13] == ':' && s[16] == ':'
    &&& s[19] == '.' && s[26] == 'Z'
    &&& forall|i: int| 0 <= i < 27 && !is_separator_position(i) ==> is_digit(#[trigger] s[i])
}

proof fn digits_are_digits(v: nat, width: nat)
    ensures
        digits(v, width).len() == width,
        forall|i: int| 0 <= i < width ==> is_digit(#[trigger] digits(v, width)[i]),
    decreases width,
{
    if width > 0 {
        digits_are_digits(v / 10, (width - 1) as nat);
    }
}

/// Every rendered timestamp has the fixed shape of the pattern.
pub proof fn timestamp_text_shape(t: Timestamp)
    ensures
        has_timestamp_shape(timestamp_text(t)),
{
    digits_are_digits(t.year as nat, 4);
    digits_are_digits(t.month as nat, 2);
    digits_are_digits(t.day as nat, 2);
    digits_are_digits(t.hour as nat, 2);
    digits_are_digits(t.minute as nat, 2);
    digits_are_digits(t.second as nat, 2);
    digits_are_digits((t.nanosecond / 1000) as nat, 6);
    let s = timestamp_text(t);
    assert(s.len() == 27);
    assert forall|i: int| 0 <= i < 27 && !is_separator_position(i) implies is_digit(
        #[trigger] s[i],
    ) by {
        if i < 4 {
            assert(s[i] == digits(t.year as nat, 4)[i]);
        } else if i < 7 {
            assert(s[i] == digits(t.month as nat, 2)[i - 5]);
        } else if i < 10 {
            assert(s[i] == digits(t.day as nat, 2)[i - 8]);
        } else if i < 13 {
            assert(s[i] == digits(t.hour as nat, 2)[i - 11]);
        } else if i < 16 {
            assert(s[i] == digits(t.minute as nat, 2)[i - 14]);
        } else if i < 19 {
            assert(s[i] == digits(t.second as nat, 2)[i - 17]);
        } else {
            assert(s[i] == digits((t.nanosecond / 1000) as nat, 6)[i - 20]);
        }
    }
}

fn digit_str(d: u32) -> (r: &'static str)
    requires
        d < 10,
    ensures
        r@ == seq![digit_char(d as nat)],
{
    proof {
        reveal_strlit("0");
        reveal_strlit("1");
        reveal_strlit("2");
        reveal_strlit("3");
        reveal_strlit("4");
        reveal_strlit("5");
        reveal_strlit("6");
        reveal_strlit("7");
        reveal_strlit("8");
        reveal_strlit("9");
    }
    if d == 0 {
        "0"
    } else if d == 1 {
        "1"
    } else if d == 2 {
        "2"
    } else if d == 3 {
        "3"
    } else if d == 4 {
        "4"
    } else if d == 5 {
        "5"
    } else if d == 6 {
        "6"
    } else if d == 7 {
        "7"
    } else if d == 8 {
        "8"
    } else {
        "9"
    }
}

fn push_digits(out: &mut String, v: u32, width: u32)
    ensures
        final(out)@ == old(out)@ + digits(v as nat, width as nat),
    decreases width,
{
    if width > 0 {
        push_digits(out, v / 10, width - 1);
        out.append(digit_str(v % 10));
    } else {
        assert(old(out)@ + digits(v as nat, 0) =~= old(out)@);
    }
}

/// Appends `text` to `out`.
pub(crate) fn push_text(out: &mut String, text: &str)
    ensures
        final(out)@ == old(out)@ + text@,
{
    out.append(text);
}

impl Timestamp {
    /// Renders the moment as `YYYY-MM-DDTHH:MM:SS.ffffffZ`. A field out of
    /// its range, or a year outside `0..=9999`, does not fit the pattern and
    /// is refused.
    pub fn format(&self) -> (r: Result<String, FormatError>)
        ensures
            match r {
                Ok(s) => self.renderable() && s@ == timestamp_text(*self) && has_timestamp_shape(
                    s@,
                ),
                Err(e) => !self.renderable() && e == FormatError::TimestampFormatFailed,
            },
    {
        if self.year < 0 || self.year > 9999 || self.month < 1 || self.month > 12 || self.day < 1
            || self.day > 31 || self.hour >= 24 || self.minute >= 60 || self.second >= 60
            || self.nanosecond >= 1_000_000_000 {
            return Err(FormatError::TimestampFormatFailed);
        }
        proof {
            reveal_strlit("-");
            reveal_strlit("T");
            reveal_strlit(":");
            reveal_strlit(".");
            reveal_strlit("Z");
        }
        let mut out = String::new();
        push_digits(&mut out, self.year as u32, 4);
        push_text(&mut out, "-");
        push_digits(&mut out, self.month as u32, 2);
        push_text(&mut out, "-");
        push_digits(&mut out, self.day as u32, 2);
        push_text(&mut out, "T");
        push_digits(&mut out, self.hour as u32, 2);
        push_text(&mut out, ":");
        push_digits(&mut out, self.minute as u32, 2);
        push_text(&mut out, ":");
        push_digits(&mut out, self.second as u32, 2);
        push_text(&mut out, ".");
        push_digits(&mut out, self.nanosecond / 1000, 6);
        push_text(&mut out, "Z");
        assert(out@ =~= timestamp_text(*self));
        proof {
            timestamp_text_shape(*self);
        }
        Ok(out)
    }
}

/// Relies on time's `OffsetDateTime::now_utc` and its field getters, which keep
/// each field in the range of its unit (the month as its number, 1 to 12).
#[verifier::external_body]
pub(crate) fn now_utc() -> (r: Timestamp)
    ensures
        r.wf(),
{
    let now = time::OffsetDateTime::now_utc();
    Timestamp {
        year: now.year(),
        month: u8::from(now.month()),
        day: now.day(),
        hour: now.hour(),
        minute: now.minute(),
        second: now.second(),
        nanosecond: now.nanosecond(),
    }
}

} // verus!
