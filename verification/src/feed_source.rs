//! Feed sources: where feed items come from.
use vstd::prelude::*;
use crate::ident::{fresh_id, is_ulid_text};
use crate::keyed::Keyed;
use crate::timestamp::{is_clock_reading, Timestamp};

verus! {

/// The kind of media a source serves.
#[derive(Debug, Clone, Copy, PartialEq, Eq, Structural)]
pub enum SourceType {
    Text,
    Image,
    Video,
    Audio,
}

/// A feed source.
#[derive(Debug, Clone)]
pub struct FeedSource {
    pub id: String,
    pub created_at: Timestamp,
    pub updated_at: Timestamp,
    pub source_type: Option<SourceType>,
    pub name: String,
    pub base_url: String,
    pub is_enabled: bool,
    pub requires_key: bool,
}

impl Keyed for FeedSource {
    open spec fn key(&self) -> Seq<char> {
        self.id@
    }

    fn key_text(&self) -> (r: &String) {
        &self.id
    }
}

impl FeedSource {
    /// A new, enabled source that needs no key, with a fresh id, stamped now,
    /// and no type.
    pub fn new(name: &str, base_url: &str) -> (s: FeedSource)
        ensures
            is_ulid_text(s.id@),
            is_clock_reading(s.created_at),
            s.created_at == s.updated_at,
            s.name@ == name@,
            s.base_url@ == base_url@,
            s.source_type is None,
            s.is_enabled,
            !s.requires_key,
    {
        let now = Timestamp::now();
        FeedSource {
            id: fresh_id(),
            created_at: now,
            updated_at: now,
            source_type: None,
            name: name.to_string(),
            base_url: base_url.to_string(),
            is_enabled: true,
            requires_key: false,
        }
    }

    fn touch(&mut self)
        ensures
            is_clock_reading(final(self).updated_at),
            *final(self) == (FeedSource { updated_at: final(self).updated_at, ..*old(self) }),
    {
        self.updated_at = Timestamp::now();
    }

    /// The same source with the given type.
    pub fn with_type(self, source_type: SourceType) -> (s: FeedSource)
        ensures
            s == (FeedSource { source_type: Some(source_type), ..self }),
    {
        let mut s = self;
        s.source_type = Some(source_type);
        s
    }

    /// The same source, needing an API key.
    pub fn requiring_key(self) -> (s: FeedSource)
        ensures
            s == (FeedSource { requires_key: true, ..self }),
    {
        let mut s = self;
        s.requires_key = true;
        s
    }

    /// Renames the source and stamps `updated_at`.
    pub fn set_name(&mut self, name: &str)
        ensures
            final(self).name@ == name@,
            is_clock_reading(final(self).updated_at),
            *final(self) == (FeedSource {
                name: final(self).name,
                updated_at: final(self).updated_at,
                ..*old(self)
            }),
    {
        self.name = name.to_string();
        self.touch();
    }

    /// Changes the base URL and stamps `updated_at`.
    pub fn set_base_url(&mut self, base_url: &str)
        ensures
            final(self).base_url@ == base_url@,
            is_clock_reading(final(self).updated_at),
            *final(self) == (FeedSource {
                base_url: final(self).base_url,
                updated_at: final(self).updated_at,
                ..*old(self)
            }),
    {
        self.base_url = base_url.to_string();
        self.touch();
    }

    /// Sets or clears the type and stamps `updated_at`.
    pub fn set_type(&mut self, source_type: Option<SourceType>)
        ensures
            is_clock_reading(final(self).updated_at),
            *final(self) == (FeedSource { source_type, updated_at: final(self).updated_at, ..*old(self) }),
    {
        self.source_type = source_type;
        self.touch();
    }

    /// Enables the source and stamps `updated_at`.
    pub fn enable(&mut self)
        ensures
            is_clock_reading(final(self).updated_at),
            *final(self) == (FeedSource { is_enabled: true, updated_at: final(self).updated_at, ..*old(self) }),
    {
        self.is_enabled = true;
        self.touch();
    }

    /// Disables the source and stamps `updated_at`.
    pub fn disable(&mut self)
        ensures
            is_clock_reading(final(self).updated_at),
            *final(self) == (FeedSource { is_enabled: false, updated_at: final(self).updated_at, ..*old(self) }),
    {
        self.is_enabled = false;
        self.touch();
    }

    /// Flips whether the source is enabled and stamps `updated_at`.
    pub fn toggle_enabled(&mut self)
        ensures
            is_clock_reading(final(self).updated_at),
            *final(self) == (FeedSource {
                is_enabled: !old(self).is_enabled,
                updated_at: final(self).updated_at,
                ..*old(self)
            }),
    {
        self.is_enabled = !self.is_enabled;
        self.touch();
    }
}

} // verus!
