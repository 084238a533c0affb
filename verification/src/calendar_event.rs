//! Calendar events: a titled time range with optional place and color.
use vstd::prelude::*;
use crate::ident::{fresh_id, is_ulid_text};
use crate::keyed::holds_text;
use crate::keyed::Keyed;
use crate::tag::HexColor;
use crate::timestamp::{div_toward_zero, is_clock_reading, nanos_between, Timestamp, NANOS_PER_MINUTE};

verus! {

/// Something happening on a calendar.
#[derive(Debug, Clone)]
pub struct CalendarEvent {
    pub id: String,
    pub created_at: Timestamp,
    pub updated_at: Timestamp,
    pub recurrence_id: Option<String>,
    pub calendar_id: Option<String>,
    pub title: String,
    pub description: String,
    pub start_datetime: Option<Timestamp>,
    pub end_datetime: Option<Timestamp>,
    pub is_all_day: bool,
    pub location: Option<String>,
    pub color: Option<HexColor>,
}

impl Keyed for CalendarEvent {
    open spec fn key(&self) -> Seq<char> {
        self.id@
    }

    fn key_text(&self) -> (r: &String) {
        &self.id
    }
}

impl CalendarEvent {
    /// Both ends set, and each event starts strictly before the other ends.
    pub open spec fn spec_overlaps(&self, other: &CalendarEvent) -> bool {
        match (self.start_datetime, self.end_datetime, other.start_datetime, other.end_datetime) {
            (Some(a_start), Some(a_end), Some(b_start), Some(b_end)) => a_start.total_nanos()
                < b_end.total_nanos() && b_start.total_nanos() < a_end.total_nanos(),
            _ => false,
        }
    }

    /// Whole minutes from start to end, rounded toward zero, when both are
    /// set.
    pub open spec fn spec_duration_minutes(&self) -> Option<int> {
        match (self.start_datetime, self.end_datetime) {
            (Some(start), Some(end)) => Some(div_toward_zero(nanos_between(start, end), NANOS_PER_MINUTE as int)),
            _ => None,
        }
    }

    /// A new event with a fresh id, stamped now: empty description, no
    /// times, place, color, calendar or recurrence, not all-day.
    pub fn new(title: &str) -> (e: CalendarEvent)
        ensures
            is_ulid_text(e.id@),
            is_clock_reading(e.created_at),
            e.created_at == e.updated_at,
            e.title@ == title@,
            e.description@ == Seq::<char>::empty(),
            e.recurrence_id is None,
            e.calendar_id is None,
            e.start_datetime is None,
            e.end_datetime is None,
            !e.is_all_day,
            e.location is None,
            e.color is None,
    {
        let now = Timestamp::now();
        CalendarEvent {
            id: fresh_id(),
            created_at: now,
            updated_at: now,
            recurrence_id: None,
            calendar_id: None,
            title: title.to_string(),
            description: String::new(),
            start_datetime: None,
            end_datetime: None,
            is_all_day: false,
            location: None,
            color: None,
        }
    }

    fn touch(&mut self)
        ensures
            is_clock_reading(final(self).updated_at),
            *final(self) == (CalendarEvent { updated_at: final(self).updated_at, ..*old(self) }),
    {
        self.updated_at = Timestamp::now();
    }

    /// The same event with the given description.
    pub fn with_description(self, description: &str) -> (e: CalendarEvent)
        ensures
            e.description@ == description@,
            e == (CalendarEvent { description: e.description, ..self }),
    {
        let mut e = self;
        e.description = description.to_string();
        e
    }

    /// The same event running from `start` to `end`.
    pub fn with_times(self, start: Timestamp, end: Timestamp) -> (e: CalendarEvent)
        ensures
            e == (CalendarEvent { start_datetime: Some(start), end_datetime: Some(end), ..self }),
    {
        let mut e = self;
        e.start_datetime = Some(start);
        e.end_datetime = Some(end);
        e
    }

    /// The same event at the given place.
    pub fn with_location(self, location: &str) -> (e: CalendarEvent)
        ensures
            holds_text(e.location, location@),
            e == (CalendarEvent { location: e.location, ..self }),
    {
        let mut e = self;
        e.location = Some(location.to_string());
        e
    }

    /// The same event with the given color.
    pub fn with_color(self, color: HexColor) -> (e: CalendarEvent)
        ensures
            e == (CalendarEvent { color: Some(color), ..self }),
    {
        let mut e = self;
        e.color = Some(color);
        e
    }

    /// The same event, lasting all day.
    pub fn all_day(self) -> (e: CalendarEvent)
        ensures
            e == (CalendarEvent { is_all_day: true, ..self }),
    {
        let mut e = self;
        e.is_all_day = true;
        e
    }

    /// Retitles the event and stamps `updated_at`.
    pub fn set_title(&mut self, title: &str)
        ensures
            final(self).title@ == title@,
            is_clock_reading(final(self).updated_at),
            *final(self) == (CalendarEvent {
                title: final(self).title,
                updated_at: final(self).updated_at,
                ..*old(self)
            }),
    {
        self.title = title.to_string();
        self.touch();
    }

    /// Rewrites the description and stamps `updated_at`.
    pub fn set_description(&mut self, description: &str)
        ensures
            final(self).description@ == description@,
            is_clock_reading(final(self).updated_at),
            *final(self) == (CalendarEvent {
                description: final(self).description,
                updated_at: final(self).updated_at,
                ..*old(self)
            }),
    {
        self.description = description.to_string();
        self.touch();
    }

    /// Sets or clears both ends and stamps `updated_at`.
    pub fn set_times(&mut self, start: Option<Timestamp>, end: Option<Timestamp>)
        ensures
            is_clock_reading(final(self).updated_at),
            *final(self) == (CalendarEvent {
                start_datetime: start,
                end_datetime: end,
                updated_at: final(self).updated_at,
                ..*old(self)
            }),
    {
        self.start_datetime = start;
        self.end_datetime = end;
        self.touch();
    }

    /// Sets or clears the place and stamps `updated_at`.
    pub fn set_location(&mut self, location: Option<String>)
        ensures
            is_clock_reading(final(self).updated_at),
            *final(self) == (CalendarEvent { location, updated_at: final(self).updated_at, ..*old(self) }),
    {
        self.location = location;
        self.touch();
    }

    /// The event follows a recurrence rule.
    pub fn is_recurring(&self) -> (r: bool)
        ensures
            r == self.recurrence_id is Some,
    {
        self.recurrence_id.is_some()
    }

    /// Whole minutes from start to end (negative when the end comes first),
    /// or `None` when either end is unset.
    pub fn duration_minutes(&self) -> (r: Option<i64>)
        ensures
            r matches Some(m) ==> self.spec_duration_minutes() == Some(m as int),
            r is None ==> self.spec_duration_minutes() is None,
    {
        match (&self.start_datetime, &self.end_datetime) {
            (Some(start), Some(end)) => Some(start.minutes_until(end)),
            _ => None,
        }
    }

    /// The two events share some instant: both have both ends set and each
    /// starts before the other ends.
    pub fn overlaps(&self, other: &CalendarEvent) -> (r: bool)
        ensures
            r == self.spec_overlaps(other),
    {
        match (&self.start_datetime, &self.end_datetime, &other.start_datetime, &other.end_datetime) {
            (Some(a_start), Some(a_end), Some(b_start), Some(b_end)) => {
                a_start.is_before(b_end) && b_start.is_before(a_end)
            },
            _ => false,
        }
    }
}

/// Overlap is symmetric.
pub proof fn law_overlap_symmetric(a: CalendarEvent, b: CalendarEvent)
    ensures
        a.spec_overlaps(&b) == b.spec_overlaps(&a),
{
}

/// An event overlaps itself exactly when both ends are set and it ends
/// after it starts.
pub proof fn law_overlap_with_itself(a: CalendarEvent)
    ensures
        (a.start_datetime matches Some(s) && a.end_datetime matches Some(e) && s.total_nanos()
            < e.total_nanos()) ==> a.spec_overlaps(&a),
        (a.start_datetime matches Some(s) && a.end_datetime matches Some(e) && e.total_nanos()
            <= s.total_nanos()) ==> !a.spec_overlaps(&a),
        (a.start_datetime is None || a.end_datetime is None) ==> !a.spec_overlaps(&a),
{
}


/// Two timed events overlap exactly when each starts strictly before the
/// other ends; in particular an event lying inside another (starting no
/// earlier and ending no later, and itself of positive length) overlaps it,
/// both ways round. An event with a missing end overlaps nothing.
pub proof fn law_overlap_exactly_when_intervals_meet(a: CalendarEvent, b: CalendarEvent)
    ensures
        a.start_datetime is Some && a.end_datetime is Some && b.start_datetime is Some && b.end_datetime is Some
            ==> (a.spec_overlaps(&b) <==> (a.start_datetime->0.total_nanos() < b.end_datetime->0.total_nanos()
            && b.start_datetime->0.total_nanos() < a.end_datetime->0.total_nanos())),
        a.start_datetime is Some && a.end_datetime is Some && b.start_datetime is Some && b.end_datetime is Some
            && a.start_datetime->0.total_nanos() <= b.start_datetime->0.total_nanos()
            && b.start_datetime->0.total_nanos() < b.end_datetime->0.total_nanos()
            && b.end_datetime->0.total_nanos() <= a.end_datetime->0.total_nanos() ==> (a.spec_overlaps(&b)
            && b.spec_overlaps(&a)),
        (a.start_datetime is None || a.end_datetime is None || b.start_datetime is None || b.end_datetime is None)
            ==> !a.spec_overlaps(&b),
{
}

} // verus!
