//! The deadline shortcuts offered while a task is being added or edited.
use crate::calendar::{
    date_from_ymd, days_in_month, local_today, midnight, shift_days, weekday_from_sunday, Date,
    Timestamp, MAX_YEAR,
};
use crate::text::same_text;
use vstd::prelude::*;

verus! {

/// Midnight of `d`, if `d` lies in the representable range.
pub open spec fn midnight_within_range(d: Date) -> Option<Timestamp> {
    if d.valid() {
        Some(d.midnight())
    } else {
        None
    }
}

/// The last day of the month that `d` falls in.
pub open spec fn last_day_of_month(d: Date) -> Date {
    Date { day: days_in_month(d.year as int, d.month as int) as u32, ..d }
}

/// What a deadline keyword stands for on the day `today`: "This Week" is
/// the last day of the week, weeks running from Sunday to Saturday, and
/// "This Month" the last day of the month.
pub open spec fn deadline_for(keyword: Seq<char>, today: Date) -> Option<Timestamp> {
    if keyword == "Today"@ {
        Some(today.midnight())
    } else if keyword == "Tomorrow"@ {
        midnight_within_range(today.plus_days(1))
    } else if keyword == "This Week"@ {
        midnight_within_range(today.plus_days(6 - today.weekday_from_sunday()))
    } else if keyword == "This Month"@ {
        if today.month == 12 && today.year == MAX_YEAR {
            None
        } else {
            Some(last_day_of_month(today).midnight())
        }
    } else {
        None
    }
}

/// The day before the first of the next month is the last of this month.
proof fn lemma_day_before_next_month(d: Date)
    requires
        d.valid(),
    ensures
        d.month < 12 ==> (Date { month: (d.month + 1) as u32, day: 1, ..d }).plus_days(-1)
            == last_day_of_month(d),
        d.month == 12 ==> (Date { year: (d.year + 1) as i32, month: 1, day: 1 }).plus_days(-1)
            == last_day_of_month(d),
{
    let a = Date { month: (d.month + 1) as u32, day: 1, ..d };
    let b = Date { year: (d.year + 1) as i32, month: 1, day: 1 };
    assert(a.plus_days(-1) == a.prev().plus_days(0));
    assert(b.plus_days(-1) == b.prev().plus_days(0));
}

/// Resolves a deadline keyword ("Today", "Tomorrow", "This Week" or
/// "This Month") against the given day; any other text gives no deadline.
pub fn resolve_deadline(option: &str, today: Date) -> (r: Option<Timestamp>)
    requires
        today.valid(),
    ensures
        r == deadline_for(option@, today),
        r matches Some(t) ==> t.valid(),
{
    if same_text(option, "Today") {
        Some(midnight(today))
    } else if same_text(option, "Tomorrow") {
        match shift_days(today, 1) {
            Some(d) => Some(midnight(d)),
            None => None,
        }
    } else if same_text(option, "This Week") {
        let wd = weekday_from_sunday(today);
        let n: i64 = 6 - wd as i64;
        match shift_days(today, n) {
            Some(d) => Some(midnight(d)),
            None => None,
        }
    } else if same_text(option, "This Month") {
        proof {
            lemma_day_before_next_month(today);
        }
        let first_of_next = if today.month < 12 {
            date_from_ymd(today.year, today.month + 1, 1)
        } else if today.year < MAX_YEAR {
            date_from_ymd(today.year + 1, 1, 1)
        } else {
            None
        };
        match first_of_next {
            Some(f) => match shift_days(f, -1) {
                Some(d) => Some(midnight(d)),
                None => None,
            },
            None => None,
        }
    } else {
        None
    }
}

/// Resolves a deadline keyword against today's date on the local clock.
pub fn calculate_deadline(option: &str) -> (r: Option<Timestamp>)
    ensures
        exists|today: Date| today.valid() && r == #[trigger] deadline_for(option@, today),
        r matches Some(t) ==> t.valid(),
{
    let today = local_today();
    resolve_deadline(option, today)
}

} // verus!
