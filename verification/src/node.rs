//! Nodes of the knowledge graph: positioned pieces of content with tags.
use vstd::prelude::*;
use crate::ident::{fresh_id, is_ulid_text};
use crate::keyed::{contains_key, has_key, remove_all_by_key, without_key, Keyed};
use crate::tag::Tag;
use crate::timestamp::{is_clock_reading, Timestamp};

verus! {

/// What a node holds.
#[derive(Debug, Clone, Copy, PartialEq, Eq, Structural)]
pub enum NodeType {
    File,
    Video,
    Audio,
    Text,
    Image,
}

/// A node of the graph, placed at `(x, y)` on the canvas.
#[derive(Debug, Clone)]
pub struct Node {
    pub id: String,
    pub created_at: Timestamp,
    pub updated_at: Timestamp,
    pub node_type: NodeType,
    pub x: i32,
    pub y: i32,
    pub title: String,
    pub content: String,
    pub tags: Vec<Tag>,
}

impl Keyed for Node {
    open spec fn key(&self) -> Seq<char> {
        self.id@
    }

    fn key_text(&self) -> (r: &String) {
        &self.id
    }
}

impl Node {
    /// A new node at the origin, with a fresh id, stamped now, and no tags.
    pub fn new(title: &str, content: &str, node_type: NodeType) -> (n: Node)
        ensures
            is_ulid_text(n.id@),
            is_clock_reading(n.created_at),
            n.created_at == n.updated_at,
            n.title@ == title@,
            n.content@ == content@,
            n.node_type == node_type,
            n.x == 0,
            n.y == 0,
            n.tags@ == Seq::<Tag>::empty(),
    {
        let now = Timestamp::now();
        Node {
            id: fresh_id(),
            created_at: now,
            updated_at: now,
            node_type,
            x: 0,
            y: 0,
            title: title.to_string(),
            content: content.to_string(),
            tags: Vec::new(),
        }
    }

    fn touch(&mut self)
        ensures
            is_clock_reading(final(self).updated_at),
            *final(self) == (Node { updated_at: final(self).updated_at, ..*old(self) }),
    {
        self.updated_at = Timestamp::now();
    }

    /// The same node placed at `(x, y)`.
    pub fn with_position(self, x: i32, y: i32) -> (n: Node)
        ensures
            n == (Node { x, y, ..self }),
    {
        let mut n = self;
        n.x = x;
        n.y = y;
        n
    }

    /// Retitles the node and stamps `updated_at`.
    pub fn set_title(&mut self, title: &str)
        ensures
            final(self).title@ == title@,
            is_clock_reading(final(self).updated_at),
            *final(self) == (Node {
                title: final(self).title,
                updated_at: final(self).updated_at,
                ..*old(self)
            }),
    {
        self.title = title.to_string();
        self.touch();
    }

    /// Rewrites the content and stamps `updated_at`.
    pub fn set_content(&mut self, content: &str)
        ensures
            final(self).content@ == content@,
            is_clock_reading(final(self).updated_at),
            *final(self) == (Node {
                content: final(self).content,
                updated_at: final(self).updated_at,
                ..*old(self)
            }),
    {
        self.content = content.to_string();
        self.touch();
    }

    /// Changes the type and stamps `updated_at`.
    pub fn set_type(&mut self, node_type: NodeType)
        ensures
            is_clock_reading(final(self).updated_at),
            *final(self) == (Node { node_type, updated_at: final(self).updated_at, ..*old(self) }),
    {
        self.node_type = node_type;
        self.touch();
    }

    /// Places the node at `(x, y)` and stamps `updated_at`.
    pub fn set_position(&mut self, x: i32, y: i32)
        ensures
            is_clock_reading(final(self).updated_at),
            *final(self) == (Node { x, y, updated_at: final(self).updated_at, ..*old(self) }),
    {
        self.x = x;
        self.y = y;
        self.touch();
    }

    /// Shifts the node by `(dx, dy)` and stamps `updated_at`. The new
    /// coordinates must fit an `i32` (the addition overflows otherwise).
    pub fn move_by(&mut self, dx: i32, dy: i32)
        requires
            i32::MIN <= old(self).x + dx <= i32::MAX,
            i32::MIN <= old(self).y + dy <= i32::MAX,
        ensures
            is_clock_reading(final(self).updated_at),
            *final(self) == (Node {
                x: (old(self).x + dx) as i32,
                y: (old(self).y + dy) as i32,
                updated_at: final(self).updated_at,
                ..*old(self)
            }),
    {
        self.x = self.x + dx;
        self.y = self.y + dy;
        self.touch();
    }

    /// Attaches `tag` unless a tag with its id is already attached; only an
    /// actual change stamps `updated_at`.
    pub fn add_tag(&mut self, tag: Tag)
        ensures
            has_key(old(self).tags@, tag.id@) ==> *final(self) == *old(self),
            !has_key(old(self).tags@, tag.id@) ==> {
                &&& final(self).tags@ == old(self).tags@.push(tag)
                &&& is_clock_reading(final(self).updated_at)
                &&& *final(self) == (Node {
                    tags: final(self).tags,
                    updated_at: final(self).updated_at,
                    ..*old(self)
                })
            },
    {
        if !contains_key(&self.tags, tag.id.as_str()) {
            self.tags.push(tag);
            self.touch();
        }
    }

    /// Detaches every tag with id `tag_id`; returns whether one was attached.
    /// Only an actual change stamps `updated_at`.
    pub fn remove_tag(&mut self, tag_id: &str) -> (removed: bool)
        ensures
            removed == has_key(old(self).tags@, tag_id@),
            !removed ==> *final(self) == *old(self),
            removed ==> {
                &&& final(self).tags@ == without_key(old(self).tags@, tag_id@)
                &&& is_clock_reading(final(self).updated_at)
                &&& *final(self) == (Node {
                    tags: final(self).tags,
                    updated_at: final(self).updated_at,
                    ..*old(self)
                })
            },
    {
        if contains_key(&self.tags, tag_id) {
            remove_all_by_key(&mut self.tags, tag_id);
            self.touch();
            true
        } else {
            false
        }
    }

    /// Whether a tag with id `tag_id` is attached.
    pub fn has_tag(&self, tag_id: &str) -> (r: bool)
        ensures
            r == has_key(self.tags@, tag_id@),
    {
        contains_key(&self.tags, tag_id)
    }
}

} // verus!
