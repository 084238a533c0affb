//! Edges of the knowledge graph.
use vstd::prelude::*;
use crate::ident::{fresh_id, is_ulid_text};
use crate::keyed::holds_text;
use crate::keyed::{same_text, Keyed};
use crate::timestamp::{is_clock_reading, Timestamp};

verus! {

/// What an edge means.
#[derive(Debug, Clone, Copy, PartialEq, Eq, Structural)]
pub enum ConnectionLabel {
    RelatesTo,
    CausedBy,
    IsA,
    Uses,
}

/// An edge between two nodes, optionally labelled and optionally directed.
#[derive(Debug, Clone)]
pub struct Connection {
    pub id: String,
    pub created_at: Timestamp,
    pub updated_at: Timestamp,
    pub source_node_id: Option<String>,
    pub dest_node_id: Option<String>,
    pub label: Option<ConnectionLabel>,
    pub is_directed: bool,
}

impl Keyed for Connection {
    open spec fn key(&self) -> Seq<char> {
        self.id@
    }

    fn key_text(&self) -> (r: &String) {
        &self.id
    }
}

/// The text held by `o`, if any.
pub open spec fn text_of(o: Option<String>) -> Option<Seq<char>> {
    match o {
        Some(s) => Some(s@),
        None => None,
    }
}

/// Whether `o` holds text equal to `id`.
pub fn option_is(o: &Option<String>, id: &str) -> (r: bool)
    ensures
        r == holds_text(*o, id@),
{
    match o {
        Some(s) => same_text(s.as_str(), id),
        None => false,
    }
}

impl Connection {
    /// One of the endpoints is `node_id`.
    pub open spec fn spec_touches(&self, node_id: Seq<char>) -> bool {
        holds_text(self.source_node_id, node_id) || holds_text(self.dest_node_id, node_id)
    }

    /// The endpoint across from `node_id`: the destination when the source
    /// is `node_id`, else the source when the destination is `node_id`.
    pub open spec fn spec_other_end(&self, node_id: Seq<char>) -> Option<Seq<char>> {
        if holds_text(self.source_node_id, node_id) {
            text_of(self.dest_node_id)
        } else if holds_text(self.dest_node_id, node_id) {
            text_of(self.source_node_id)
        } else {
            None
        }
    }

    /// A new undirected, unlabelled edge between the two nodes, with a fresh
    /// id, stamped now.
    pub fn new(source_node_id: &str, dest_node_id: &str) -> (c: Connection)
        ensures
            is_ulid_text(c.id@),
            is_clock_reading(c.created_at),
            c.created_at == c.updated_at,
            holds_text(c.source_node_id, source_node_id@),
            holds_text(c.dest_node_id, dest_node_id@),
            c.label is None,
            !c.is_directed,
    {
        let now = Timestamp::now();
        Connection {
            id: fresh_id(),
            created_at: now,
            updated_at: now,
            source_node_id: Some(source_node_id.to_string()),
            dest_node_id: Some(dest_node_id.to_string()),
            label: None,
            is_directed: false,
        }
    }

    fn touch(&mut self)
        ensures
            is_clock_reading(final(self).updated_at),
            *final(self) == (Connection { updated_at: final(self).updated_at, ..*old(self) }),
    {
        self.updated_at = Timestamp::now();
    }

    /// The same edge with the given label.
    pub fn with_label(self, label: ConnectionLabel) -> (c: Connection)
        ensures
            c == (Connection { label: Some(label), ..self }),
    {
        let mut c = self;
        c.label = Some(label);
        c
    }

    /// The same edge, directed.
    pub fn directed(self) -> (c: Connection)
        ensures
            c == (Connection { is_directed: true, ..self }),
    {
        let mut c = self;
        c.is_directed = true;
        c
    }

    /// Sets or clears the label and stamps `updated_at`.
    pub fn set_label(&mut self, label: Option<ConnectionLabel>)
        ensures
            is_clock_reading(final(self).updated_at),
            *final(self) == (Connection { label, updated_at: final(self).updated_at, ..*old(self) }),
    {
        self.label = label;
        self.touch();
    }

    /// Makes the edge directed or undirected and stamps `updated_at`.
    pub fn set_directed(&mut self, is_directed: bool)
        ensures
            is_clock_reading(final(self).updated_at),
            *final(self) == (Connection { is_directed, updated_at: final(self).updated_at, ..*old(self) }),
    {
        self.is_directed = is_directed;
        self.touch();
    }

    /// Swaps source and destination and stamps `updated_at`.
    pub fn reverse(&mut self)
        ensures
            is_clock_reading(final(self).updated_at),
            *final(self) == (Connection {
                source_node_id: old(self).dest_node_id,
                dest_node_id: old(self).source_node_id,
                updated_at: final(self).updated_at,
                ..*old(self)
            }),
    {
        let source = self.source_node_id.take();
        let dest = self.dest_node_id.take();
        self.source_node_id = dest;
        self.dest_node_id = source;
        self.touch();
    }

    /// One of the endpoints is `node_id`.
    pub fn touches(&self, node_id: &str) -> (r: bool)
        ensures
            r == self.spec_touches(node_id@),
    {
        option_is(&self.source_node_id, node_id) || option_is(&self.dest_node_id, node_id)
    }

    /// The endpoint across from `node_id`, if `node_id` is an endpoint and
    /// the other end is set.
    pub fn other_end(&self, node_id: &str) -> (r: Option<&str>)
        ensures
            r matches Some(s) ==> self.spec_other_end(node_id@) == Some(s@),
            r is None ==> self.spec_other_end(node_id@) is None,
    {
        if option_is(&self.source_node_id, node_id) {
            match &self.dest_node_id {
                Some(d) => Some(d.as_str()),
                None => None,
            }
        } else if option_is(&self.dest_node_id, node_id) {
            match &self.source_node_id {
                Some(s) => Some(s.as_str()),
                None => None,
            }
        } else {
            None
        }
    }
}

/// Reversing an edge twice restores its endpoints.
pub proof fn law_reverse_twice(c: Connection)
    ensures
        ({
            let once = Connection { source_node_id: c.dest_node_id, dest_node_id: c.source_node_id, ..c };
            Connection { source_node_id: once.dest_node_id, dest_node_id: once.source_node_id, ..once }
        }) == c,
{
}

/// The other end of the other end leads back: when both endpoints are set
/// and distinct, walking across the edge from either end and back returns
/// to where one started.
pub proof fn law_other_end_round_trip(c: Connection, node_id: Seq<char>)
    requires
        c.source_node_id is Some,
        c.dest_node_id is Some,
        text_of(c.source_node_id) != text_of(c.dest_node_id),
        c.spec_touches(node_id),
    ensures
        c.spec_other_end(node_id) matches Some(o) && c.spec_other_end(o) == Some(node_id),
{
}


/// The far end of an edge is read from its endpoints alone, whatever its
/// direction: from the source it is the destination, from the destination
/// (when it is not also the source) it is the source, and from any other node
/// there is none.
pub proof fn law_other_end_ignores_direction(c: Connection, directed: bool, node_id: Seq<char>)
    ensures
        (Connection { is_directed: directed, ..c }).spec_other_end(node_id) == c.spec_other_end(node_id),
        holds_text(c.source_node_id, node_id) ==> c.spec_other_end(node_id) == text_of(c.dest_node_id),
        !holds_text(c.source_node_id, node_id) && holds_text(c.dest_node_id, node_id) ==> c.spec_other_end(node_id)
            == text_of(c.source_node_id),
        !c.spec_touches(node_id) ==> c.spec_other_end(node_id) is None,
{
}

} // verus!
