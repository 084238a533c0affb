//! Labels that can be attached to tasks, projects, notes and graph nodes.
use vstd::prelude::*;
use crate::ident::{fresh_id, is_ulid_text};
use crate::keyed::Keyed;
use crate::timestamp::{is_clock_reading, Timestamp};

verus! {

/// A color written as hex text, such as `#ff0000`.
pub type HexColor = String;

/// A label with an optional color.
#[derive(Debug, Clone)]
pub struct Tag {
    pub id: String,
    pub created_at: Timestamp,
    pub updated_at: Timestamp,
    pub label: String,
    pub color: Option<HexColor>,
}

impl Keyed for Tag {
    open spec fn key(&self) -> Seq<char> {
        self.id@
    }

    fn key_text(&self) -> (r: &String) {
        &self.id
    }
}

impl Tag {
    /// A new tag with a fresh id, stamped now.
    pub fn new(label: &str, color: Option<HexColor>) -> (t: Tag)
        ensures
            is_ulid_text(t.id@),
            is_clock_reading(t.created_at),
            t.created_at == t.updated_at,
            t.label@ == label@,
            t.color == color,
    {
        let now = Timestamp::now();
        Tag { id: fresh_id(), created_at: now, updated_at: now, label: label.to_string(), color }
    }

    fn touch(&mut self)
        ensures
            is_clock_reading(final(self).updated_at),
            *final(self) == (Tag { updated_at: final(self).updated_at, ..*old(self) }),
    {
        self.updated_at = Timestamp::now();
    }

    /// Renames the tag and stamps `updated_at`.
    pub fn set_label(&mut self, label: &str)
        ensures
            final(self).label@ == label@,
            is_clock_reading(final(self).updated_at),
            *final(self) == (Tag {
                label: final(self).label,
                updated_at: final(self).updated_at,
                ..*old(self)
            }),
    {
        self.label = label.to_string();
        self.touch();
    }

    /// Recolors the tag and stamps `updated_at`.
    pub fn set_color(&mut self, color: Option<HexColor>)
        ensures
            is_clock_reading(final(self).updated_at),
            *final(self) == (Tag { color, updated_at: final(self).updated_at, ..*old(self) }),
    {
        self.color = color;
        self.touch();
    }
}

} // verus!
