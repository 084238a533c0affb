//! The user and their preferences.
use vstd::prelude::*;
use crate::ident::{fresh_id, is_ulid_text};
use crate::preferences::Preferences;
use crate::timestamp::{is_clock_reading, Timestamp};

verus! {

/// The application's user.
#[derive(Debug, Clone)]
pub struct User {
    pub id: String,
    pub created_at: Timestamp,
    pub updated_at: Timestamp,
    pub preferences: Preferences,
}

impl User {
    /// A new user with a fresh id, stamped now, and default preferences.
    pub fn new() -> (u: User)
        ensures
            is_ulid_text(u.id@),
            is_clock_reading(u.created_at),
            u.created_at == u.updated_at,
            u.preferences.spec_is_fresh_default(),
    {
        let now = Timestamp::now();
        User { id: fresh_id(), created_at: now, updated_at: now, preferences: Preferences::new() }
    }

    fn touch(&mut self)
        ensures
            is_clock_reading(final(self).updated_at),
            *final(self) == (User { updated_at: final(self).updated_at, ..*old(self) }),
    {
        self.updated_at = Timestamp::now();
    }

    /// Replaces the preferences and stamps `updated_at`.
    pub fn set_preferences(&mut self, preferences: Preferences)
        ensures
            is_clock_reading(final(self).updated_at),
            *final(self) == (User { preferences, updated_at: final(self).updated_at, ..*old(self) }),
    {
        self.preferences = preferences;
        self.touch();
    }

    /// Stamps `updated_at` and hands out the preferences for editing; the
    /// user ends up holding whatever the caller leaves in them.
    pub fn preferences_mut(&mut self) -> (r: &mut Preferences)
        ensures
            *r == old(self).preferences,
            is_clock_reading(final(self).updated_at),
            *final(self) == (User {
                preferences: *final(r),
                updated_at: final(self).updated_at,
                ..*old(self)
            }),
    {
        self.touch();
        &mut self.preferences
    }
}

impl Default for User {
    fn default() -> (u: User)
        ensures
            is_ulid_text(u.id@),
            is_clock_reading(u.created_at),
            u.created_at == u.updated_at,
            u.preferences.spec_is_fresh_default(),
    {
        User::new()
    }
}

} // verus!
