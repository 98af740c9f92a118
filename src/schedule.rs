use vstd::prelude::*;
use crate::calendar::{CalendarDate, day_after, date_before};

verus! {

/// The number of seconds in a day of the local wall clock.
pub const SECONDS_PER_DAY: u32 = 86400;

/// A time of day on the local wall clock, to the minute.
#[derive(Clone, Copy, Debug, PartialEq, Eq, Structural)]
pub struct TimeOfDay {
    pub hour: u32,
    pub minute: u32,
}

impl TimeOfDay {
    pub open spec fn valid(&self) -> bool {
        self.hour < 24 && self.minute < 60
    }

    /// Seconds from midnight to this time.
    pub open spec fn seconds(&self) -> int {
        self.hour * 3600 + self.minute * 60
    }

    /// The time `hour:minute`, if it exists.
    pub fn new(hour: u32, minute: u32) -> (r: Option<TimeOfDay>)
        ensures
            r == (if hour < 24 && minute < 60 {
                Some(TimeOfDay { hour, minute })
            } else {
                None
            }),
    {
        if hour < 24 && minute < 60 {
            Some(TimeOfDay { hour, minute })
        } else {
            None
        }
    }

    /// The delivery time used where none is configured, half past nine.
    pub fn default_delivery() -> (r: TimeOfDay)
        ensures
            r.hour == 9,
            r.minute == 30,
    {
        TimeOfDay { hour: 9, minute: 30 }
    }

    /// Reads a time written `HH:MM`, with one or two digits for the hour and
    /// two for the minute.
    pub fn parse(text: &str) -> (r: Option<TimeOfDay>)
        ensures
            r == time_of_text(text@),
    {
        let n = text.unicode_len();
        if n != 4 && n != 5 {
            return None;
        }
        let colon = n - 3;
        if text.get_char(colon) != ':' {
            return None;
        }
        let mut hour: u32 = 0;
        let mut i: usize = 0;
        assert(text@.subrange(0, 0) =~= Seq::<char>::empty());
        while i < colon
            invariant
                colon == text@.len() - 3,
                1 <= colon <= 2,
                0 <= i <= colon,
                forall|j: int| 0 <= j < i ==> is_digit(text@[j]),
                hour == digits_value(text@.subrange(0, i as int)),
                hour < 100,
                i == 0 ==> hour == 0,
                i <= 1 ==> hour < 10,
            decreases colon - i,
        {
            let c = text.get_char(i);
            match digit_value(c) {
                None => {
                    return None;
                },
                Some(v) => {
                    proof {
                        let s = text@.subrange(0, i + 1);
                        assert(s.drop_last() =~= text@.subrange(0, i as int));
                    }
                    hour = hour * 10 + v;
                },
            }
            i = i + 1;
        }
        let c1 = text.get_char(colon + 1);
        let c2 = text.get_char(colon + 2);
        match (digit_value(c1), digit_value(c2)) {
            (Some(m1), Some(m2)) => {
                proof {
                    assert(text@.subrange(0, colon as int) =~= text@.subrange(0, i as int));
                    let ms = text@.subrange(colon + 1, colon + 3);
                    assert(ms.drop_last().drop_last() =~= Seq::<char>::empty());
                    assert(ms.drop_last().last() == c1);
                    assert(ms.last() == c2);
                    assert(digits_value(ms.drop_last().drop_last()) == 0);
                    assert(digits_value(ms.drop_last()) == m1);
                    assert(digits_value(ms) == m1 * 10 + m2);
                }
                TimeOfDay::new(hour, m1 * 10 + m2)
            },
            _ => None,
        }
    }
}

pub open spec fn is_digit(c: char) -> bool {
    '0' <= c <= '9'
}

/// The value of a run of decimal digits.
pub open spec fn digits_value(s: Seq<char>) -> int
    decreases s.len(),
{
    if s.len() == 0 {
        0
    } else {
        digits_value(s.drop_last()) * 10 + (s.last() as int - '0' as int)
    }
}

/// The time that `HH:MM` or `H:MM` text denotes, if any.
pub open spec fn time_of_text(s: Seq<char>) -> Option<TimeOfDay> {
    let colon = s.len() - 3;
    if (s.len() == 4 || s.len() == 5) && s[colon] == ':' && (forall|j: int|
        0 <= j < colon ==> is_digit(#[trigger] s[j])) && is_digit(s[colon + 1]) && is_digit(
        s[colon + 2],
    ) {
        let hour = digits_value(s.subrange(0, colon));
        let minute = digits_value(s.subrange(colon + 1, colon + 3));
        if hour < 24 && minute < 60 {
            Some(TimeOfDay { hour: hour as u32, minute: minute as u32 })
        } else {
            None
        }
    } else {
        None
    }
}

fn digit_value(c: char) -> (r: Option<u32>)
    ensures
        r == (if is_digit(c) {
            Some((c as int - '0' as int) as u32)
        } else {
            None::<u32>
        }),
{
    if '0' <= c && c <= '9' {
        Some((c as u32) - ('0' as u32))
    } else {
        None
    }
}

/// A moment on the local wall clock: a day and the seconds since its midnight.
#[derive(Clone, Copy, Debug, PartialEq, Eq, Structural)]
pub struct LocalDateTime {
    pub date: CalendarDate,
    pub second_of_day: u32,
}

impl LocalDateTime {
    pub open spec fn valid(&self) -> bool {
        self.date.valid() && self.second_of_day < SECONDS_PER_DAY
    }
}

/// Whether `a` comes before `b` on the local wall clock.
pub open spec fn moment_before(a: LocalDateTime, b: LocalDateTime) -> bool {
    date_before(a.date, b.date) || (a.date == b.date && a.second_of_day < b.second_of_day)
}

/// The next delivery after `now`: today at `at` if that is still to come,
/// else tomorrow at `at`. The moment is a calendar day with a time of day;
/// resolving it in the local time zone is left to the caller, so that a
/// change of the clock's offset between now and then moves no delivery.
pub fn next_delivery(now: LocalDateTime, at: TimeOfDay) -> (r: LocalDateTime)
    requires
        now.valid(),
        now.date.year < 9999,
        at.valid(),
    ensures
        r.valid(),
        r.second_of_day == at.seconds(),
        (now.second_of_day as int) < at.seconds() ==> r.date == now.date,
        (now.second_of_day as int) >= at.seconds() ==> r.date == day_after(now.date),
        moment_before(now, r),
{
    let at_seconds = at.hour * 3600 + at.minute * 60;
    if now.second_of_day < at_seconds {
        LocalDateTime { date: now.date, second_of_day: at_seconds }
    } else {
        LocalDateTime { date: now.date.next(), second_of_day: at_seconds }
    }
}

} // verus!
