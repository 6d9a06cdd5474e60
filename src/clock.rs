use vstd::prelude::*;
use crate::options::Timestamp;

verus! {

/// A time of day, to the millisecond.
#[derive(Clone, Copy, PartialEq, Eq, Debug, Structural)]
pub struct ClockTime {
    pub hour: u8,
    pub minute: u8,
    pub second: u8,
    pub millisecond: u16,
}

impl ClockTime {
    /// Each field lies in its range.
    pub open spec fn wf(self) -> bool {
        &&& self.hour < 24
        &&& self.minute < 60
        &&& self.second < 60
        &&& self.millisecond < 1000
    }
}

/// The decimal digit for `n`, which is below ten.
pub open spec fn digit(n: int) -> char {
    ((n + 48) as u8) as char
}

/// `n`, below a hundred, in two digits.
pub open spec fn two_digits(n: int) -> Seq<char> {
    seq![digit(n / 10), digit(n % 10)]
}

/// `n`, below a thousand, in three digits.
pub open spec fn three_digits(n: int) -> Seq<char> {
    seq![digit(n / 100), digit((n / 10) % 10), digit(n % 10)]
}

/// `HH:MM:SS`.
pub open spec fn clock_text(t: ClockTime) -> Seq<char> {
    two_digits(t.hour as int) + seq![':'] + two_digits(t.minute as int) + seq![':'] + two_digits(
        t.second as int,
    )
}

/// What a line starts with in a timestamp mode: nothing when it is off,
/// `[HH:MM:SS] ` in the simple mode and `[HH:MM:SS.mmm] ` in the extended one.
pub open spec fn timestamp_prefix(mode: Timestamp, t: ClockTime) -> Seq<char> {
    match mode {
        Timestamp::Off => seq![],
        Timestamp::Simple => seq!['['] + clock_text(t) + seq![']', ' '],
        Timestamp::Extend => seq!['['] + clock_text(t) + seq!['.'] + three_digits(
            t.millisecond as int,
        ) + seq![']', ' '],
    }
}

fn push_digit(out: &mut Vec<char>, n: u16)
    requires
        n < 10,
    ensures
        final(out)@ == old(out)@.push(digit(n as int)),
{
    let c: char = ((n as u8) + 48) as char;
    out.push(c);
}

fn push_two_digits(out: &mut Vec<char>, n: u8)
    requires
        n < 100,
    ensures
        final(out)@ == old(out)@ + two_digits(n as int),
{
    push_digit(out, (n / 10) as u16);
    push_digit(out, (n % 10) as u16);
    assert(final(out)@ =~= old(out)@ + two_digits(n as int));
}

/// Formats the prefix of a line in a timestamp mode.
pub fn format_prefix(mode: Timestamp, t: &ClockTime) -> (r: Vec<char>)
    requires
        t.wf(),
    ensures
        r@ == timestamp_prefix(mode, *t),
{
    let mut out: Vec<char> = Vec::new();
    if mode == Timestamp::Off {
        return out;
    }
    out.push('[');
    push_two_digits(&mut out, t.hour);
    out.push(':');
    push_two_digits(&mut out, t.minute);
    out.push(':');
    push_two_digits(&mut out, t.second);
    if mode == Timestamp::Extend {
        out.push('.');
        push_digit(&mut out, t.millisecond / 100);
        push_digit(&mut out, (t.millisecond / 10) % 10);
        push_digit(&mut out, t.millisecond % 10);
    }
    out.push(']');
    out.push(' ');
    assert(out@ =~= timestamp_prefix(mode, *t));
    out
}

/// The time of day now, in UTC.
///
/// Relies on `time::OffsetDateTime::now_utc` and on its `hour`, `minute`,
/// `second` and `millisecond` accessors, documented to return values in
/// `0..24`, `0..60`, `0..60` and `0..1_000`.
#[verifier::external_body]
pub(crate) fn now_utc() -> (t: ClockTime)
    ensures
        t.wf(),
{
    let now = time::OffsetDateTime::now_utc();
    ClockTime {
        hour: now.hour(),
        minute: now.minute(),
        second: now.second(),
        millisecond: now.millisecond(),
    }
}

} // verus!
