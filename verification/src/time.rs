//! Calendar time of the system clock, and its count of seconds since the
//! epoch 00:00:00 on 01-01-00.

use vstd::prelude::*;

verus! {

/// Represents the time of the system clock.
#[derive(Debug, Clone, Copy, PartialEq, Eq, Structural)]
pub struct Time {
    /// Seconds. Maximum 59.
    pub sec: u8,
    /// Minutes. Maximum 59.
    pub min: u8,
    /// Hours. Maximum 23.
    pub hour: u8,
    /// Days. Maximum 31.
    pub day: u8,
    /// Months. Maximum 12.
    pub month: u8,
    /// Years. Maximum 99. Only represents the last two digits. So `50` may mean `1950` or `2050`.
    pub year: u16,
}

/// Whether the clock counts `year` as a leap year: every fourth year is one.
pub open spec fn leap_year(year: u16) -> bool {
    year % 4 == 0
}

/// Days of `year`.
pub open spec fn year_days(year: u16) -> nat {
    if leap_year(year) {
        366
    } else {
        365
    }
}

/// Days of the month `month` (1 to 12) of `year`; 0 for any other month.
pub open spec fn month_days(month: u8, year: u16) -> nat {
    if month == 2 {
        if leap_year(year) {
            29
        } else {
            28
        }
    } else if month == 4 || month == 6 || month == 9 || month == 11 {
        30
    } else if 1 <= month <= 12 {
        31
    } else {
        0
    }
}

/// Days of the years before `year`, from year 0 on.
pub open spec fn days_before_year(year: u16) -> nat
    decreases year,
{
    if year == 0 {
        0
    } else {
        days_before_year((year - 1) as u16) + year_days((year - 1) as u16)
    }
}

/// Days of the months of `year` before `month`, from month 1 on.
pub open spec fn days_before_month(month: u8, year: u16) -> nat
    decreases month,
{
    if month <= 1 {
        0
    } else {
        days_before_month((month - 1) as u8, year) + month_days((month - 1) as u8, year)
    }
}

impl Time {
    /// Whole days from the epoch to the start of this day.
    pub open spec fn days(self) -> nat {
        (days_before_year(self.year) + days_before_month(self.month, self.year) + self.day
            - 1) as nat
    }

    /// Seconds from the epoch to this time.
    pub open spec fn seconds(self) -> nat {
        (self.days() * 86400 + self.hour * 3600 + self.min * 60 + self.sec) as nat
    }

    /// A time of day on a day of the calendar, in the century of the clock.
    pub open spec fn valid(self) -> bool {
        &&& self.sec < 60
        &&& self.min < 60
        &&& self.hour < 24
        &&& self.year < 100
        &&& 1 <= self.month <= 12
        &&& 1 <= self.day <= month_days(self.month, self.year)
    }

    /// Check if this is a leap year.
    pub fn is_leap_year(year: u16) -> (leap: bool)
        ensures
            leap == leap_year(year),
    {
        year % 4 == 0
    }

    /// Number of days in the month (1–12).
    pub fn days_in_month(month: u8, year: u16) -> (days: u32)
        ensures
            days == month_days(month, year),
    {
        match month {
            1 => 31,
            2 => {
                if Self::is_leap_year(year) {
                    29
                } else {
                    28
                }
            },
            3 => 31,
            4 => 30,
            5 => 31,
            6 => 30,
            7 => 31,
            8 => 31,
            9 => 30,
            10 => 31,
            11 => 30,
            12 => 31,
            _ => 0,
        }
    }

    /// Convert a calendar date/time into the seconds since the epoch:
    /// 00:00:00 on 01-01-00.
    pub fn to_duration(&self) -> (secs: u64)
        requires
            self.day >= 1,
        ensures
            secs == self.seconds(),
    {
        let mut days: u32 = 0;
        let mut y: u16 = 0;
        while y < self.year
            invariant
                0 <= y <= self.year,
                days == days_before_year(y),
                days <= y * 366,
            decreases self.year - y,
        {
            days += if Self::is_leap_year(y) {
                366
            } else {
                365
            };
            y += 1;
        }
        let mut m: u8 = 1;
        while m < self.month
            invariant
                1 <= m,
                m <= self.month || m == 1,
                days == days_before_year(self.year) + days_before_month(m, self.year),
                days <= self.year * 366 + m * 31,
            decreases self.month - m,
        {
            days += Self::days_in_month(m, self.year);
            m += 1;
        }
        proof {
            if self.month == 0 {
                assert(days_before_month(0, self.year) == days_before_month(1, self.year));
            }
        }
        days += (self.day - 1) as u32;
        days as u64 * 86400 + self.hour as u64 * 3600 + self.min as u64 * 60 + self.sec as u64
    }

    /// Create a Time from the seconds since the epoch 00:00:00 on 01-01-00.
    ///
    /// The years wrap at 100: the date is the one that lies as many days
    /// into its century as the seconds lie into theirs. Only the low 32 bits
    /// of the count of days are looked at.
    pub fn from_duration(secs: u64) -> (time: Self)
        ensures
            time.valid(),
            time.sec == secs % 60,
            time.min == (secs / 60) % 60,
            time.hour == (secs / 3600) % 24,
            time.days() == (((secs / 86400) % 0x1_0000_0000) as nat) % 36525,
    {
        let mut rest = secs;
        let sec = (rest % 60) as u8;
        rest /= 60;
        let min = (rest % 60) as u8;
        rest /= 60;
        let hour = (rest % 24) as u8;
        rest /= 24;
        let total: u32 = (rest % 0x1_0000_0000) as u32;
        let mut days: u32 = total;
        let ghost mut centuries: nat = 0;

        let mut year: u16 = 0;
        loop
            invariant
                year < 100,
                centuries * 36525 + days_before_year(year) + days == total,
            ensures
                year < 100,
                days < year_days(year),
                centuries * 36525 + days_before_year(year) + days == total,
            decreases days,
        {
            let year_len: u32 = if Self::is_leap_year(year) {
                366
            } else {
                365
            };
            if days < year_len {
                break ;
            }
            days -= year_len;
            year += 1;
            proof {
                if year == 100 {
                    lemma_century();
                    centuries = centuries + 1;
                }
            }
            year %= 100;
        }
        let ghost in_year = days;
        proof {
            lemma_months_fill_year(year);
        }

        let mut month: u8 = 1;
        loop
            invariant
                1 <= month <= 12,
                days_before_month(month, year) + days == in_year,
                in_year < year_days(year),
                days_before_month(12, year) + 31 == year_days(year),
            ensures
                1 <= month <= 12,
                days < month_days(month, year),
                days_before_month(month, year) + days == in_year,
            decreases days,
        {
            let dm = Self::days_in_month(month, year);
            if days < dm {
                break ;
            }
            days -= dm;
            month += 1;
        }
        let day = (days + 1) as u8;
        proof {
            lemma_within_century(year, in_year as nat);
            lemma_mod_of_sum(total as nat, centuries, (days_before_year(year) + in_year) as nat);
        }
        Self { sec, min, hour, day, month, year }
    }
}

/// The years before `year` hold 365 days each and one more for every fourth.
pub proof fn lemma_days_before_year(year: u16)
    ensures
        days_before_year(year) == 365 * year + (year + 3) / 4,
    decreases year,
{
    if year > 0 {
        lemma_days_before_year((year - 1) as u16);
    }
}

/// A hundred years of the clock hold 36525 days.
pub proof fn lemma_century()
    ensures
        days_before_year(100) == 36525,
{
    lemma_days_before_year(100);
}

/// The twelve months of a year hold the days of the year.
pub proof fn lemma_months_fill_year(year: u16)
    ensures
        days_before_month(12, year) + 31 == year_days(year),
{
    reveal_with_fuel(days_before_month, 13);
}

/// A day of a year before the hundredth lies in the first century.
pub proof fn lemma_within_century(year: u16, day_of_year: nat)
    requires
        year < 100,
        day_of_year < year_days(year),
    ensures
        days_before_year(year) + day_of_year < 36525,
{
    lemma_days_before_year(year);
}

/// A number that is some centuries and a rest below a century leaves that
/// rest when divided by a century.
proof fn lemma_mod_of_sum(total: nat, centuries: nat, rest: nat)
    requires
        total == centuries * 36525 + rest,
        rest < 36525,
    ensures
        total % 36525 == rest,
{
    vstd::arithmetic::div_mod::lemma_fundamental_div_mod_converse(
        total as int,
        36525,
        centuries as int,
        rest as int,
    );
}

/// The months before `month` and the month itself stay within the year.
pub proof fn lemma_month_within_year(month: u8, year: u16)
    requires
        1 <= month <= 12,
    ensures
        days_before_month(month, year) + month_days(month, year) <= year_days(year),
        month < 12 ==> days_before_month((month + 1) as u8, year) == days_before_month(month, year)
            + month_days(month, year),
{
    reveal_with_fuel(days_before_month, 13);
}

/// Later months start later.
pub proof fn lemma_months_rise(earlier: u8, later: u8, year: u16)
    requires
        1 <= earlier < later <= 12,
    ensures
        days_before_month(earlier, year) + month_days(earlier, year) <= days_before_month(
            later,
            year,
        ),
    decreases later - earlier,
{
    lemma_month_within_year(earlier, year);
    if earlier + 1 < later {
        lemma_months_rise((earlier + 1) as u8, later, year);
    }
}

/// The count of days names the date: two valid times on the same day since
/// the epoch have the same year, month and day.
pub proof fn lemma_days_name_the_date(a: Time, b: Time)
    requires
        a.valid(),
        b.valid(),
        a.days() == b.days(),
    ensures
        a.year == b.year,
        a.month == b.month,
        a.day == b.day,
{
    lemma_days_before_year(a.year);
    lemma_days_before_year(b.year);
    lemma_days_before_year((a.year + 1) as u16);
    lemma_days_before_year((b.year + 1) as u16);
    lemma_month_within_year(a.month, a.year);
    lemma_month_within_year(b.month, b.year);
    assert(a.year == b.year);
    if a.month < b.month {
        lemma_months_rise(a.month, b.month, a.year);
    } else if b.month < a.month {
        lemma_months_rise(b.month, a.month, a.year);
    }
}

/// Seconds and back: the time that `from_duration` makes of the seconds of a
/// valid time is that time. `back` stands for any time that meets what
/// `from_duration` promises for `time.seconds()`.
pub proof fn lemma_round_trip(time: Time, back: Time)
    requires
        time.valid(),
        back.valid(),
        back.sec == time.seconds() % 60,
        back.min == (time.seconds() / 60) % 60,
        back.hour == (time.seconds() / 3600) % 24,
        back.days() == (((time.seconds() / 86400) % 0x1_0000_0000) as nat) % 36525,
    ensures
        back == time,
{
    let in_day = time.hour * 3600 + time.min * 60 + time.sec;
    assert(time.seconds() == time.days() * 86400 + in_day);
    assert(0 <= in_day < 86400);
    lemma_month_within_year(time.month, time.year);
    lemma_within_century(time.year, (days_before_month(time.month, time.year) + time.day - 1) as nat);
    assert(time.days() < 36525);
    vstd::arithmetic::div_mod::lemma_fundamental_div_mod_converse(
        time.seconds() as int,
        86400,
        time.days() as int,
        in_day,
    );
    assert(time.seconds() / 86400 == time.days());
    lemma_days_name_the_date(time, back);
    let in_hour = time.min * 60 + time.sec;
    vstd::arithmetic::div_mod::lemma_fundamental_div_mod_converse(
        time.seconds() as int,
        3600,
        time.days() * 24 + time.hour,
        in_hour,
    );
    vstd::arithmetic::div_mod::lemma_fundamental_div_mod_converse(
        time.seconds() as int,
        60,
        time.days() * 1440 + time.hour * 60 + time.min,
        time.sec as int,
    );
}

} // verus!
