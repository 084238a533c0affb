//! Verified core of a personal knowledge workspace: tasks and projects,
//! notes, a knowledge graph, calendars, feed interests and user preferences,
//! plus the storage rules (text codes, error mapping, migration planning)
//! that the persistence layer follows.
use vstd::prelude::*;

pub mod codes;
pub mod db;
pub mod ident;
pub mod keyed;
pub mod order;
pub mod timestamp;

pub mod tag;

pub mod project;
pub mod recurrence;
pub mod task;

pub mod note;

pub mod connection;
pub mod graph;
pub mod node;

pub mod calendar;
pub mod calendar_event;

pub mod feed_interest;
pub mod feed_source;

pub mod features;
pub mod preferences;
pub mod user;

verus! {

/// The greeting shown for `name`.
pub open spec fn greeting(name: Seq<char>) -> Seq<char> {
    "Hello, "@ + name + "! You've been greeted from Rust!"@
}

/// Greets `name`.
pub fn greet(name: &str) -> (r: String)
    ensures
        r@ == greeting(name@),
{
    let mut s = "Hello, ".to_string();
    s.append(name);
    s.append("! You've been greeted from Rust!");
    s
}

} // verus!
