//! Recurrence rules shared by tasks and calendar events.
use vstd::prelude::*;
use crate::ident::{fresh_id, is_ulid_text};
use crate::timestamp::{is_clock_reading, Timestamp};

verus! {

/// How often a rule repeats.
#[derive(Debug, Clone, Copy, PartialEq, Eq, Structural)]
pub enum Frequency {
    Daily,
    Weekly,
    Monthly,
    Yearly,
}

/// A day of the week.
#[derive(Debug, Clone, Copy, PartialEq, Eq, Structural)]
pub enum DayOfWeek {
    Monday,
    Tuesday,
    Wednesday,
    Thursday,
    Friday,
    Saturday,
    Sunday,
}

/// A repetition pattern.
#[derive(Debug, Clone)]
pub struct RecurrenceRule {
    pub id: String,
    pub created_at: Timestamp,
    pub updated_at: Timestamp,
    pub frequency: Option<Frequency>,
    pub interval: Option<i32>,
    pub days_of_week: Vec<DayOfWeek>,
    pub day_of_month: Option<i32>,
    pub end_date: Option<Timestamp>,
}

/// `days` with every occurrence of `day` left out, the rest in order.
pub open spec fn days_without(days: Seq<DayOfWeek>, day: DayOfWeek) -> Seq<DayOfWeek>
    decreases days.len(),
{
    if days.len() == 0 {
        days
    } else {
        let rest = days_without(days.drop_last(), day);
        if days.last() == day {
            rest
        } else {
            rest.push(days.last())
        }
    }
}

/// The interval a rule repeats at: an unset interval counts as 1, and
/// anything below 1 is raised to 1.
pub open spec fn spec_effective_interval(interval: Option<i32>) -> i32 {
    match interval {
        Some(n) => if n >= 1 {
            n
        } else {
            1
        },
        None => 1,
    }
}

impl RecurrenceRule {
    /// The end date lies strictly before `now`.
    pub open spec fn spec_has_ended_at(&self, now: Timestamp) -> bool {
        self.end_date matches Some(end) && end.total_nanos() < now.total_nanos()
    }

    /// A frequency is set and the rule has not ended at `now`.
    pub open spec fn spec_is_active_at(&self, now: Timestamp) -> bool {
        self.frequency is Some && !self.spec_has_ended_at(now)
    }

    /// A new rule with a fresh id, stamped now, with nothing set.
    pub fn new() -> (r: RecurrenceRule)
        ensures
            is_ulid_text(r.id@),
            is_clock_reading(r.created_at),
            r.created_at == r.updated_at,
            r.frequency is None,
            r.interval is None,
            r.days_of_week@ == Seq::<DayOfWeek>::empty(),
            r.day_of_month is None,
            r.end_date is None,
    {
        let now = Timestamp::now();
        RecurrenceRule {
            id: fresh_id(),
            created_at: now,
            updated_at: now,
            frequency: None,
            interval: None,
            days_of_week: Vec::new(),
            day_of_month: None,
            end_date: None,
        }
    }

    fn touch(&mut self)
        ensures
            is_clock_reading(final(self).updated_at),
            *final(self) == (RecurrenceRule { updated_at: final(self).updated_at, ..*old(self) }),
    {
        self.updated_at = Timestamp::now();
    }

    /// The same rule with the given frequency.
    pub fn with_frequency(self, frequency: Frequency) -> (r: RecurrenceRule)
        ensures
            r == (RecurrenceRule { frequency: Some(frequency), ..self }),
    {
        let mut r = self;
        r.frequency = Some(frequency);
        r
    }

    /// The same rule with the given interval.
    pub fn with_interval(self, interval: i32) -> (r: RecurrenceRule)
        ensures
            r == (RecurrenceRule { interval: Some(interval), ..self }),
    {
        let mut r = self;
        r.interval = Some(interval);
        r
    }

    /// The same rule with the given days of the week.
    pub fn with_days_of_week(self, days: Vec<DayOfWeek>) -> (r: RecurrenceRule)
        ensures
            r == (RecurrenceRule { days_of_week: days, ..self }),
    {
        let mut r = self;
        r.days_of_week = days;
        r
    }

    /// The same rule with the given day of the month.
    pub fn with_day_of_month(self, day: i32) -> (r: RecurrenceRule)
        ensures
            r == (RecurrenceRule { day_of_month: Some(day), ..self }),
    {
        let mut r = self;
        r.day_of_month = Some(day);
        r
    }

    /// The same rule with the given end date.
    pub fn with_end_date(self, end_date: Timestamp) -> (r: RecurrenceRule)
        ensures
            r == (RecurrenceRule { end_date: Some(end_date), ..self }),
    {
        let mut r = self;
        r.end_date = Some(end_date);
        r
    }

    /// Sets or clears the frequency and stamps `updated_at`.
    pub fn set_frequency(&mut self, frequency: Option<Frequency>)
        ensures
            is_clock_reading(final(self).updated_at),
            *final(self) == (RecurrenceRule {
                frequency,
                updated_at: final(self).updated_at,
                ..*old(self)
            }),
    {
        self.frequency = frequency;
        self.touch();
    }

    /// Sets or clears the interval and stamps `updated_at`.
    pub fn set_interval(&mut self, interval: Option<i32>)
        ensures
            is_clock_reading(final(self).updated_at),
            *final(self) == (RecurrenceRule {
                interval,
                updated_at: final(self).updated_at,
                ..*old(self)
            }),
    {
        self.interval = interval;
        self.touch();
    }

    /// Whether `day` is among the rule's days.
    pub fn has_day(&self, day: DayOfWeek) -> (r: bool)
        ensures
            r == self.days_of_week@.contains(day),
    {
        let mut i: usize = 0;
        while i < self.days_of_week.len()
            invariant
                0 <= i <= self.days_of_week@.len(),
                forall|j: int| 0 <= j < i ==> self.days_of_week@[j] != day,
            decreases self.days_of_week@.len() - i,
        {
            if self.days_of_week[i] == day {
                return true;
            }
            i += 1;
        }
        false
    }

    /// Adds `day` unless it is already there; only an actual change stamps
    /// `updated_at`.
    pub fn add_day(&mut self, day: DayOfWeek)
        ensures
            old(self).days_of_week@.contains(day) ==> *final(self) == *old(self),
            !old(self).days_of_week@.contains(day) ==> {
                &&& final(self).days_of_week@ == old(self).days_of_week@.push(day)
                &&& is_clock_reading(final(self).updated_at)
                &&& *final(self) == (RecurrenceRule {
                    days_of_week: final(self).days_of_week,
                    updated_at: final(self).updated_at,
                    ..*old(self)
                })
            },
    {
        if !self.has_day(day) {
            self.days_of_week.push(day);
            self.touch();
        }
    }

    /// Drops every occurrence of `day`; only an actual change stamps
    /// `updated_at`.
    pub fn remove_day(&mut self, day: DayOfWeek)
        ensures
            !old(self).days_of_week@.contains(day) ==> *final(self) == *old(self),
            old(self).days_of_week@.contains(day) ==> {
                &&& final(self).days_of_week@ == days_without(old(self).days_of_week@, day)
                &&& is_clock_reading(final(self).updated_at)
                &&& *final(self) == (RecurrenceRule {
                    days_of_week: final(self).days_of_week,
                    updated_at: final(self).updated_at,
                    ..*old(self)
                })
            },
    {
        if self.has_day(day) {
            let mut kept: Vec<DayOfWeek> = Vec::new();
            let mut i: usize = 0;
            while i < self.days_of_week.len()
                invariant
                    0 <= i <= self.days_of_week@.len(),
                    kept@ == days_without(self.days_of_week@.take(i as int), day),
                decreases self.days_of_week@.len() - i,
            {
                proof {
                    assert(self.days_of_week@.take(i as int + 1).drop_last() =~= self.days_of_week@.take(i as int));
                }
                let d = self.days_of_week[i];
                if d != day {
                    kept.push(d);
                }
                i += 1;
            }
            proof {
                assert(self.days_of_week@.take(i as int) =~= self.days_of_week@);
            }
            self.days_of_week = kept;
            self.touch();
        }
    }

    /// The interval the rule repeats at, never below 1.
    pub fn effective_interval(&self) -> (r: i32)
        ensures
            r == spec_effective_interval(self.interval),
            r >= 1,
    {
        let n = match self.interval {
            Some(n) => n,
            None => 1,
        };
        if n >= 1 {
            n
        } else {
            1
        }
    }

    /// The end date lies before `now`.
    pub fn has_ended_at(&self, now: &Timestamp) -> (r: bool)
        ensures
            r == self.spec_has_ended_at(*now),
    {
        match &self.end_date {
            Some(end) => end.is_before(now),
            None => false,
        }
    }

    /// The end date lies before the current time.
    pub fn has_ended(&self) -> (r: bool)
        ensures
            exists|now: Timestamp| is_clock_reading(now) && r == #[trigger] self.spec_has_ended_at(now),
            self.end_date is None ==> !r,
    {
        let now = Timestamp::now();
        self.has_ended_at(&now)
    }

    /// A frequency is set and the rule has not ended at `now`.
    pub fn is_active_at(&self, now: &Timestamp) -> (r: bool)
        ensures
            r == self.spec_is_active_at(*now),
    {
        self.frequency.is_some() && !self.has_ended_at(now)
    }

    /// A frequency is set and the rule has not ended yet.
    pub fn is_active(&self) -> (r: bool)
        ensures
            exists|now: Timestamp| is_clock_reading(now) && r == #[trigger] self.spec_is_active_at(now),
            self.frequency is None ==> !r,
            (self.frequency is Some && self.end_date is None) ==> r,
    {
        let now = Timestamp::now();
        self.is_active_at(&now)
    }
}

impl Default for RecurrenceRule {
    fn default() -> (r: RecurrenceRule)
        ensures
            is_ulid_text(r.id@),
            is_clock_reading(r.created_at),
            r.created_at == r.updated_at,
            r.frequency is None,
            r.interval is None,
            r.days_of_week@ == Seq::<DayOfWeek>::empty(),
            r.day_of_month is None,
            r.end_date is None,
    {
        RecurrenceRule::new()
    }
}

/// After removing a day, that day no longer occurs.
pub proof fn law_removed_day_absent(days: Seq<DayOfWeek>, day: DayOfWeek)
    ensures
        !days_without(days, day).contains(day),
    decreases days.len(),
{
    if days.len() > 0 {
        law_removed_day_absent(days.drop_last(), day);
    }
}

/// Adding a day that is not there yet keeps the days free of repeats.
pub proof fn law_add_day_keeps_days_distinct(days: Seq<DayOfWeek>, day: DayOfWeek)
    requires
        days.no_duplicates(),
        !days.contains(day),
    ensures
        days.push(day).no_duplicates(),
{
    let t = days.push(day);
    assert forall|i: int, j: int| 0 <= i < t.len() && 0 <= j < t.len() && i != j implies t[i] != t[j] by {
        if i == days.len() {
            assert(days[j] != day);
        } else if j == days.len() {
            assert(days[i] != day);
        }
    }
}

} // verus!
