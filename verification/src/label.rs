use vstd::prelude::*;

verus! {

/// What a text of the chart says. The drawing side turns it into characters
/// with `label_text`.
#[derive(Debug, Clone, Copy, PartialEq, Eq, Structural)]
pub enum Label {
    /// A day: its day of the week, counted from Monday as 0, its month and
    /// its day of the month.
    Day { weekday: u32, month: u32, day: u32 },
    /// An hour of the day, from 0 to 23.
    Hour(u32),
}

impl Label {
    /// The numbers are within the ranges of a calendar.
    pub open spec fn wf(&self) -> bool {
        match *self {
            Label::Day { weekday, month, day } => weekday <= 6 && month <= 99 && day <= 99,
            Label::Hour(hour) => hour <= 23,
        }
    }

    /// Tells whether the numbers are within the ranges of a calendar.
    pub fn is_well_formed(&self) -> (ok: bool)
        ensures
            ok == self.wf(),
    {
        match *self {
            Label::Day { weekday, month, day } => weekday <= 6 && month <= 99 && day <= 99,
            Label::Hour(hour) => hour <= 23,
        }
    }
}

/// The character of a decimal digit.
pub open spec fn digit_text(digit: int) -> Seq<char> {
    if digit == 0 {
        "0"@
    } else if digit == 1 {
        "1"@
    } else if digit == 2 {
        "2"@
    } else if digit == 3 {
        "3"@
    } else if digit == 4 {
        "4"@
    } else if digit == 5 {
        "5"@
    } else if digit == 6 {
        "6"@
    } else if digit == 7 {
        "7"@
    } else if digit == 8 {
        "8"@
    } else {
        "9"@
    }
}

/// A number under one hundred in decimal, without a leading zero.
pub open spec fn number_text(n: int) -> Seq<char> {
    if n < 10 {
        digit_text(n)
    } else {
        digit_text(n / 10) + digit_text(n % 10)
    }
}

/// The three-letter name of a day of the week, counted from Monday as 0.
pub open spec fn weekday_text(weekday: int) -> Seq<char> {
    if weekday == 0 {
        "Mon"@
    } else if weekday == 1 {
        "Tue"@
    } else if weekday == 2 {
        "Wed"@
    } else if weekday == 3 {
        "Thu"@
    } else if weekday == 4 {
        "Fri"@
    } else if weekday == 5 {
        "Sat"@
    } else {
        "Sun"@
    }
}

/// An hour on the twelve-hour clock: `12A` at midnight, `12P` at noon, the
/// hour and `A` before noon, the hour less twelve and `P` after it.
pub open spec fn hour_text(hour: int) -> Seq<char> {
    if hour == 0 {
        "12A"@
    } else if hour == 12 {
        "12P"@
    } else if hour < 12 {
        number_text(hour) + "A"@
    } else {
        number_text(hour - 12) + "P"@
    }
}

/// A day as its name, a space, its month, a slash and its day of the month.
pub open spec fn day_text(weekday: int, month: int, day: int) -> Seq<char> {
    weekday_text(weekday) + " "@ + number_text(month) + "/"@ + number_text(day)
}

/// The characters of a label.
pub open spec fn text_of(label: Label) -> Seq<char> {
    match label {
        Label::Day { weekday, month, day } => day_text(weekday as int, month as int, day as int),
        Label::Hour(hour) => hour_text(hour as int),
    }
}

fn digit_str(digit: u32) -> (text: &'static str)
    requires
        digit <= 9,
    ensures
        text@ == digit_text(digit as int),
{
    match digit {
        0 => "0",
        1 => "1",
        2 => "2",
        3 => "3",
        4 => "4",
        5 => "5",
        6 => "6",
        7 => "7",
        8 => "8",
        _ => "9",
    }
}

fn weekday_str(weekday: u32) -> (text: &'static str)
    ensures
        text@ == weekday_text(weekday as int),
{
    match weekday {
        0 => "Mon",
        1 => "Tue",
        2 => "Wed",
        3 => "Thu",
        4 => "Fri",
        5 => "Sat",
        _ => "Sun",
    }
}

fn push_number(text: &mut String, n: u32)
    requires
        n <= 99,
    ensures
        final(text)@ == old(text)@ + number_text(n as int),
{
    if n < 10 {
        text.append(digit_str(n));
    } else {
        text.append(digit_str(n / 10));
        text.append(digit_str(n % 10));
        assert(final(text)@ =~= old(text)@ + number_text(n as int));
    }
}

/// Spells a label out.
pub fn label_text(label: &Label) -> (text: String)
    requires
        label.wf(),
    ensures
        text@ == text_of(*label),
{
    let mut text: String = String::new();
    match *label {
        Label::Day { weekday, month, day } => {
            text.append(weekday_str(weekday));
            text.append(" ");
            push_number(&mut text, month);
            text.append("/");
            push_number(&mut text, day);
            assert(text@ =~= day_text(weekday as int, month as int, day as int));
        },
        Label::Hour(hour) => {
            if hour == 0 {
                text.append("12A");
            } else if hour == 12 {
                text.append("12P");
            } else if hour < 12 {
                push_number(&mut text, hour);
                text.append("A");
            } else {
                push_number(&mut text, hour - 12);
                text.append("P");
            }
            assert(text@ =~= hour_text(hour as int));
        },
    }
    text
}

} // verus!
