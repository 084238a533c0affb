//! Which parts of the application the user has switched on.
use vstd::prelude::*;
use crate::ident::{fresh_id, is_ulid_text};
use crate::timestamp::{is_clock_reading, Timestamp};

verus! {

/// A part of the application that can be switched on or off.
#[derive(Debug, Clone, Copy, PartialEq, Eq, Structural)]
pub enum Feature {
    KnowledgeGraph,
    NotesWhiteboard,
    Tasks,
    Calendar,
    Feed,
    Notes,
}

/// One switch per feature.
#[derive(Debug, Clone)]
pub struct Features {
    pub id: String,
    pub created_at: Timestamp,
    pub updated_at: Timestamp,
    pub knowledge_graph_enabled: bool,
    pub notes_whiteboard_enabled: bool,
    pub tasks_enabled: bool,
    pub calendar_enabled: bool,
    pub feed_enabled: bool,
    pub notes_enabled: bool,
}

impl Features {
    /// The switch for `feature`.
    pub open spec fn spec_is_enabled(&self, feature: Feature) -> bool {
        match feature {
            Feature::KnowledgeGraph => self.knowledge_graph_enabled,
            Feature::NotesWhiteboard => self.notes_whiteboard_enabled,
            Feature::Tasks => self.tasks_enabled,
            Feature::Calendar => self.calendar_enabled,
            Feature::Feed => self.feed_enabled,
            Feature::Notes => self.notes_enabled,
        }
    }

    /// `self` with the switch for `feature` set to `enabled`.
    pub open spec fn spec_with(self, feature: Feature, enabled: bool) -> Features {
        match feature {
            Feature::KnowledgeGraph => Features { knowledge_graph_enabled: enabled, ..self },
            Feature::NotesWhiteboard => Features { notes_whiteboard_enabled: enabled, ..self },
            Feature::Tasks => Features { tasks_enabled: enabled, ..self },
            Feature::Calendar => Features { calendar_enabled: enabled, ..self },
            Feature::Feed => Features { feed_enabled: enabled, ..self },
            Feature::Notes => Features { notes_enabled: enabled, ..self },
        }
    }

    /// Every switch is `enabled`.
    pub open spec fn spec_all(&self, enabled: bool) -> bool {
        &&& self.knowledge_graph_enabled == enabled
        &&& self.notes_whiteboard_enabled == enabled
        &&& self.tasks_enabled == enabled
        &&& self.calendar_enabled == enabled
        &&& self.feed_enabled == enabled
        &&& self.notes_enabled == enabled
    }

    /// A new set of switches, all on, with a fresh id, stamped now.
    pub fn new() -> (f: Features)
        ensures
            is_ulid_text(f.id@),
            is_clock_reading(f.created_at),
            f.created_at == f.updated_at,
            f.spec_all(true),
    {
        let now = Timestamp::now();
        Features {
            id: fresh_id(),
            created_at: now,
            updated_at: now,
            knowledge_graph_enabled: true,
            notes_whiteboard_enabled: true,
            tasks_enabled: true,
            calendar_enabled: true,
            feed_enabled: true,
            notes_enabled: true,
        }
    }

    fn touch(&mut self)
        ensures
            is_clock_reading(final(self).updated_at),
            *final(self) == (Features { updated_at: final(self).updated_at, ..*old(self) }),
    {
        self.updated_at = Timestamp::now();
    }

    /// Whether `feature` is switched on.
    pub fn is_enabled(&self, feature: Feature) -> (r: bool)
        ensures
            r == self.spec_is_enabled(feature),
    {
        match feature {
            Feature::KnowledgeGraph => self.knowledge_graph_enabled,
            Feature::NotesWhiteboard => self.notes_whiteboard_enabled,
            Feature::Tasks => self.tasks_enabled,
            Feature::Calendar => self.calendar_enabled,
            Feature::Feed => self.feed_enabled,
            Feature::Notes => self.notes_enabled,
        }
    }

    /// Switches `feature` to `enabled`, leaves the others, and stamps
    /// `updated_at`.
    pub fn set(&mut self, feature: Feature, enabled: bool)
        ensures
            is_clock_reading(final(self).updated_at),
            *final(self) == (Features {
                updated_at: final(self).updated_at,
                ..old(self).spec_with(feature, enabled)
            }),
    {
        match feature {
            Feature::KnowledgeGraph => self.knowledge_graph_enabled = enabled,
            Feature::NotesWhiteboard => self.notes_whiteboard_enabled = enabled,
            Feature::Tasks => self.tasks_enabled = enabled,
            Feature::Calendar => self.calendar_enabled = enabled,
            Feature::Feed => self.feed_enabled = enabled,
            Feature::Notes => self.notes_enabled = enabled,
        }
        self.touch();
    }

    /// Flips `feature`, leaves the others, and stamps `updated_at`.
    pub fn toggle(&mut self, feature: Feature)
        ensures
            is_clock_reading(final(self).updated_at),
            *final(self) == (Features {
                updated_at: final(self).updated_at,
                ..old(self).spec_with(feature, !old(self).spec_is_enabled(feature))
            }),
    {
        let enabled = self.is_enabled(feature);
        self.set(feature, !enabled);
    }

    /// Switches every feature on and stamps `updated_at`.
    pub fn enable_all(&mut self)
        ensures
            is_clock_reading(final(self).updated_at),
            *final(self) == (Features {
                knowledge_graph_enabled: true,
                notes_whiteboard_enabled: true,
                tasks_enabled: true,
                calendar_enabled: true,
                feed_enabled: true,
                notes_enabled: true,
                updated_at: final(self).updated_at,
                ..*old(self)
            }),
    {
        self.knowledge_graph_enabled = true;
        self.notes_whiteboard_enabled = true;
        self.tasks_enabled = true;
        self.calendar_enabled = true;
        self.feed_enabled = true;
        self.notes_enabled = true;
        self.touch();
    }

    /// Switches every feature off and stamps `updated_at`.
    pub fn disable_all(&mut self)
        ensures
            is_clock_reading(final(self).updated_at),
            *final(self) == (Features {
                knowledge_graph_enabled: false,
                notes_whiteboard_enabled: false,
                tasks_enabled: false,
                calendar_enabled: false,
                feed_enabled: false,
                notes_enabled: false,
                updated_at: final(self).updated_at,
                ..*old(self)
            }),
    {
        self.knowledge_graph_enabled = false;
        self.notes_whiteboard_enabled = false;
        self.tasks_enabled = false;
        self.calendar_enabled = false;
        self.feed_enabled = false;
        self.notes_enabled = false;
        self.touch();
    }
}

impl Default for Features {
    fn default() -> (f: Features)
        ensures
            is_ulid_text(f.id@),
            is_clock_reading(f.created_at),
            f.created_at == f.updated_at,
            f.spec_all(true),
    {
        Features::new()
    }
}

/// Setting a feature is read back by `is_enabled`, and leaves every other
/// feature as it was.
pub proof fn law_set_then_read(f: Features, feature: Feature, enabled: bool, other: Feature)
    ensures
        f.spec_with(feature, enabled).spec_is_enabled(feature) == enabled,
        other != feature ==> f.spec_with(feature, enabled).spec_is_enabled(other) == f.spec_is_enabled(other),
{
}

/// Toggling a feature twice restores every switch.
pub proof fn law_toggle_twice(f: Features, feature: Feature)
    ensures
        ({
            let once = f.spec_with(feature, !f.spec_is_enabled(feature));
            once.spec_with(feature, !once.spec_is_enabled(feature))
        }) == f,
{
}


/// Each feature is read from, and written to, its own switch and no other.
pub proof fn law_each_feature_has_its_own_switch(f: Features, enabled: bool)
    ensures
        f.spec_is_enabled(Feature::KnowledgeGraph) == f.knowledge_graph_enabled,
        f.spec_is_enabled(Feature::NotesWhiteboard) == f.notes_whiteboard_enabled,
        f.spec_is_enabled(Feature::Tasks) == f.tasks_enabled,
        f.spec_is_enabled(Feature::Calendar) == f.calendar_enabled,
        f.spec_is_enabled(Feature::Feed) == f.feed_enabled,
        f.spec_is_enabled(Feature::Notes) == f.notes_enabled,
        f.spec_with(Feature::KnowledgeGraph, enabled) == (Features { knowledge_graph_enabled: enabled, ..f }),
        f.spec_with(Feature::NotesWhiteboard, enabled) == (Features { notes_whiteboard_enabled: enabled, ..f }),
        f.spec_with(Feature::Tasks, enabled) == (Features { tasks_enabled: enabled, ..f }),
        f.spec_with(Feature::Calendar, enabled) == (Features { calendar_enabled: enabled, ..f }),
        f.spec_with(Feature::Feed, enabled) == (Features { feed_enabled: enabled, ..f }),
        f.spec_with(Feature::Notes, enabled) == (Features { notes_enabled: enabled, ..f }),
{
}

} // verus!
