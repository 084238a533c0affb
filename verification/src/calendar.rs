//! Calendars: named, colored, showable collections of events.
use vstd::prelude::*;
use crate::calendar_event::CalendarEvent;
use crate::ident::{fresh_id, is_ulid_text};
use crate::keyed::holds_text;
use crate::keyed::{find_by_key, find_by_key_mut, has_key, index_of, is_first_with_key};
use crate::tag::HexColor;
use crate::timestamp::{is_clock_reading, Timestamp};

verus! {

/// A calendar.
#[derive(Debug, Clone)]
pub struct Calendar {
    pub id: String,
    pub created_at: Timestamp,
    pub updated_at: Timestamp,
    pub calendar_events: Vec<CalendarEvent>,
    pub name: String,
    pub color: Option<HexColor>,
    pub is_visible: bool,
    pub is_default: bool,
}

impl Calendar {
    /// A new visible, non-default calendar with a fresh id, stamped now, with
    /// no color and no events.
    pub fn new(name: &str) -> (c: Calendar)
        ensures
            is_ulid_text(c.id@),
            is_clock_reading(c.created_at),
            c.created_at == c.updated_at,
            c.name@ == name@,
            c.calendar_events@ == Seq::<CalendarEvent>::empty(),
            c.color is None,
            c.is_visible,
            !c.is_default,
    {
        let now = Timestamp::now();
        Calendar {
            id: fresh_id(),
            created_at: now,
            updated_at: now,
            calendar_events: Vec::new(),
            name: name.to_string(),
            color: None,
            is_visible: true,
            is_default: false,
        }
    }

    fn touch(&mut self)
        ensures
            is_clock_reading(final(self).updated_at),
            *final(self) == (Calendar { updated_at: final(self).updated_at, ..*old(self) }),
    {
        self.updated_at = Timestamp::now();
    }

    /// The same calendar with the given color.
    pub fn with_color(self, color: HexColor) -> (c: Calendar)
        ensures
            c == (Calendar { color: Some(color), ..self }),
    {
        let mut c = self;
        c.color = Some(color);
        c
    }

    /// The same calendar, marked as the default one.
    pub fn as_default(self) -> (c: Calendar)
        ensures
            c == (Calendar { is_default: true, ..self }),
    {
        let mut c = self;
        c.is_default = true;
        c
    }

    /// Renames the calendar and stamps `updated_at`.
    pub fn set_name(&mut self, name: &str)
        ensures
            final(self).name@ == name@,
            is_clock_reading(final(self).updated_at),
            *final(self) == (Calendar {
                name: final(self).name,
                updated_at: final(self).updated_at,
                ..*old(self)
            }),
    {
        self.name = name.to_string();
        self.touch();
    }

    /// Sets or clears the color and stamps `updated_at`.
    pub fn set_color(&mut self, color: Option<HexColor>)
        ensures
            is_clock_reading(final(self).updated_at),
            *final(self) == (Calendar { color, updated_at: final(self).updated_at, ..*old(self) }),
    {
        self.color = color;
        self.touch();
    }

    /// Shows the calendar and stamps `updated_at`.
    pub fn show(&mut self)
        ensures
            is_clock_reading(final(self).updated_at),
            *final(self) == (Calendar { is_visible: true, updated_at: final(self).updated_at, ..*old(self) }),
    {
        self.is_visible = true;
        self.touch();
    }

    /// Hides the calendar and stamps `updated_at`.
    pub fn make_hidden(&mut self)
        ensures
            is_clock_reading(final(self).updated_at),
            *final(self) == (Calendar { is_visible: false, updated_at: final(self).updated_at, ..*old(self) }),
    {
        self.is_visible = false;
        self.touch();
    }

    /// Flips visibility and stamps `updated_at`.
    pub fn toggle_visibility(&mut self)
        ensures
            is_clock_reading(final(self).updated_at),
            *final(self) == (Calendar {
                is_visible: !old(self).is_visible,
                updated_at: final(self).updated_at,
                ..*old(self)
            }),
    {
        self.is_visible = !self.is_visible;
        self.touch();
    }

    /// Marks or unmarks the calendar as the default one and stamps
    /// `updated_at`.
    pub fn set_default(&mut self, is_default: bool)
        ensures
            is_clock_reading(final(self).updated_at),
            *final(self) == (Calendar { is_default, updated_at: final(self).updated_at, ..*old(self) }),
    {
        self.is_default = is_default;
        self.touch();
    }

    /// Appends `event`, pointed at this calendar, and stamps `updated_at`.
    pub fn add_event(&mut self, event: CalendarEvent)
        ensures
            final(self).calendar_events@.len() == old(self).calendar_events@.len() + 1,
            final(self).calendar_events@.drop_last() == old(self).calendar_events@,
            holds_text(final(self).calendar_events@.last().calendar_id, old(self).id@),
            final(self).calendar_events@.last() == (CalendarEvent {
                calendar_id: final(self).calendar_events@.last().calendar_id,
                ..event
            }),
            is_clock_reading(final(self).updated_at),
            *final(self) == (Calendar {
                calendar_events: final(self).calendar_events,
                updated_at: final(self).updated_at,
                ..*old(self)
            }),
    {
        let mut event = event;
        event.calendar_id = Some(self.id.clone());
        self.calendar_events.push(event);
        self.touch();
        proof {
            assert(final(self).calendar_events@.drop_last() =~= old(self).calendar_events@);
        }
    }

    /// Takes out the first event with id `event_id`; stamps `updated_at`
    /// only when one was found.
    pub fn remove_event(&mut self, event_id: &str) -> (r: Option<CalendarEvent>)
        ensures
            r is None <==> !has_key(old(self).calendar_events@, event_id@),
            r is None ==> *final(self) == *old(self),
            r matches Some(e) ==> exists|i: int|
                {
                    &&& is_first_with_key(old(self).calendar_events@, event_id@, i)
                    &&& e == old(self).calendar_events@[i]
                    &&& final(self).calendar_events@ == old(self).calendar_events@.remove(i)
                },
            r is Some ==> is_clock_reading(final(self).updated_at),
            r is Some ==> *final(self) == (Calendar {
                calendar_events: final(self).calendar_events,
                updated_at: final(self).updated_at,
                ..*old(self)
            }),
    {
        match index_of(&self.calendar_events, event_id) {
            Some(i) => {
                let e = self.calendar_events.remove(i);
                self.touch();
                Some(e)
            },
            None => None,
        }
    }

    /// The first event with id `event_id`, if any.
    pub fn find_event(&self, event_id: &str) -> (r: Option<&CalendarEvent>)
        ensures
            r is None <==> !has_key(self.calendar_events@, event_id@),
            r matches Some(e) ==> exists|i: int|
                is_first_with_key(self.calendar_events@, event_id@, i) && *e == self.calendar_events@[i],
    {
        find_by_key(&self.calendar_events, event_id)
    }

    /// Mutable access to the first event with id `event_id`, if any.
    pub fn find_event_mut(&mut self, event_id: &str) -> (r: Option<&mut CalendarEvent>)
        ensures
            r is None <==> !has_key(old(self).calendar_events@, event_id@),
            r is None ==> final(self).calendar_events@ == old(self).calendar_events@,
            r matches Some(e) ==> exists|i: int|
                {
                    &&& is_first_with_key(old(self).calendar_events@, event_id@, i)
                    &&& *e == old(self).calendar_events@[i]
                    &&& final(self).calendar_events@ == old(self).calendar_events@.update(i, *final(e))
                },
            *final(self) == (Calendar { calendar_events: final(self).calendar_events, ..*old(self) }),
    {
        find_by_key_mut(&mut self.calendar_events, event_id)
    }

    /// Number of events.
    pub fn event_count(&self) -> (r: usize)
        ensures
            r == self.calendar_events@.len(),
    {
        self.calendar_events.len()
    }
}

} // verus!
