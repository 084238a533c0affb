//! Knowledge graphs: titled sets of nodes joined by connections.
use vstd::prelude::*;
use crate::connection::Connection;
use crate::ident::{fresh_id, is_ulid_text};
use crate::keyed::{
    find_by_key, find_by_key_mut, has_key, index_of, is_first_with_key, same_text, Keyed,
};
use crate::node::Node;
use crate::timestamp::{is_clock_reading, Timestamp};

verus! {

/// A graph of nodes and the connections between them.
#[derive(Debug, Clone)]
pub struct Graph {
    pub id: String,
    pub created_at: Timestamp,
    pub updated_at: Timestamp,
    pub nodes: Vec<Node>,
    pub connections: Vec<Connection>,
    pub title: String,
    pub description: String,
}

/// The connections with an endpoint at `node_id`, in order.
pub open spec fn touching(conns: Seq<Connection>, node_id: Seq<char>) -> Seq<Connection>
    decreases conns.len(),
{
    if conns.len() == 0 {
        conns
    } else {
        let rest = touching(conns.drop_last(), node_id);
        if conns.last().spec_touches(node_id) {
            rest.push(conns.last())
        } else {
            rest
        }
    }
}

/// The connections with no endpoint at `node_id`, in order.
pub open spec fn not_touching(conns: Seq<Connection>, node_id: Seq<char>) -> Seq<Connection>
    decreases conns.len(),
{
    if conns.len() == 0 {
        conns
    } else {
        let rest = not_touching(conns.drop_last(), node_id);
        if conns.last().spec_touches(node_id) {
            rest
        } else {
            rest.push(conns.last())
        }
    }
}

/// Some connection of `conns` leads from `node_id` to `other`.
pub open spec fn leads_to(conns: Seq<Connection>, node_id: Seq<char>, other: Seq<char>) -> bool {
    exists|j: int| 0 <= j < conns.len() && #[trigger] conns[j].spec_other_end(node_id) == Some(other)
}

/// The first node of `nodes` whose id is `id` (meaningful when there is one).
pub open spec fn node_with_id(nodes: Seq<Node>, id: Seq<char>) -> Node {
    nodes[choose|i: int| is_first_with_key(nodes, id, i)]
}

/// The neighbours of `node_id` reached through `conns`: walking the
/// connections in order, each connection's far end is taken the first time
/// it shows up, and contributes the first node with that id when one
/// exists.
pub open spec fn neighbor_nodes(nodes: Seq<Node>, conns: Seq<Connection>, node_id: Seq<char>) -> Seq<Node>
    decreases conns.len(),
{
    if conns.len() == 0 {
        Seq::empty()
    } else {
        let before = conns.drop_last();
        let rest = neighbor_nodes(nodes, before, node_id);
        match conns.last().spec_other_end(node_id) {
            Some(o) => if !leads_to(before, node_id, o) && has_key(nodes, o) {
                rest.push(node_with_id(nodes, o))
            } else {
                rest
            },
            None => rest,
        }
    }
}

/// Whether one of `seen` has the text `s`.
fn seen_text(seen: &Vec<&str>, s: &str) -> (r: bool)
    ensures
        r == exists|k: int| 0 <= k < seen@.len() && #[trigger] seen@[k]@ == s@,
{
    let mut i: usize = 0;
    while i < seen.len()
        invariant
            0 <= i <= seen@.len(),
            forall|k: int| 0 <= k < i ==> #[trigger] seen@[k]@ != s@,
        decreases seen@.len() - i,
    {
        if same_text(seen[i], s) {
            return true;
        }
        i += 1;
    }
    false
}

proof fn lemma_take_last<T>(s: Seq<T>, i: int)
    requires
        0 <= i < s.len(),
    ensures
        s.take(i + 1).drop_last() == s.take(i),
        s.take(i + 1).last() == s[i],
{
    assert(s.take(i + 1).drop_last() =~= s.take(i));
}

impl Graph {
    /// A new, empty graph with a fresh id, stamped now.
    pub fn new(title: &str, description: &str) -> (g: Graph)
        ensures
            is_ulid_text(g.id@),
            is_clock_reading(g.created_at),
            g.created_at == g.updated_at,
            g.title@ == title@,
            g.description@ == description@,
            g.nodes@ == Seq::<Node>::empty(),
            g.connections@ == Seq::<Connection>::empty(),
    {
        let now = Timestamp::now();
        Graph {
            id: fresh_id(),
            created_at: now,
            updated_at: now,
            nodes: Vec::new(),
            connections: Vec::new(),
            title: title.to_string(),
            description: description.to_string(),
        }
    }

    fn touch(&mut self)
        ensures
            is_clock_reading(final(self).updated_at),
            *final(self) == (Graph { updated_at: final(self).updated_at, ..*old(self) }),
    {
        self.updated_at = Timestamp::now();
    }

    /// Retitles the graph and stamps `updated_at`.
    pub fn set_title(&mut self, title: &str)
        ensures
            final(self).title@ == title@,
            is_clock_reading(final(self).updated_at),
            *final(self) == (Graph {
                title: final(self).title,
                updated_at: final(self).updated_at,
                ..*old(self)
            }),
    {
        self.title = title.to_string();
        self.touch();
    }

    /// Rewrites the description and stamps `updated_at`.
    pub fn set_description(&mut self, description: &str)
        ensures
            final(self).description@ == description@,
            is_clock_reading(final(self).updated_at),
            *final(self) == (Graph {
                description: final(self).description,
                updated_at: final(self).updated_at,
                ..*old(self)
            }),
    {
        self.description = description.to_string();
        self.touch();
    }

    /// Appends `node` and stamps `updated_at`.
    pub fn add_node(&mut self, node: Node)
        ensures
            final(self).nodes@ == old(self).nodes@.push(node),
            is_clock_reading(final(self).updated_at),
            *final(self) == (Graph {
                nodes: final(self).nodes,
                updated_at: final(self).updated_at,
                ..*old(self)
            }),
    {
        self.nodes.push(node);
        self.touch();
    }

    /// Drops every connection with an endpoint at `node_id`.
    fn drop_touching(&mut self, node_id: &str)
        ensures
            final(self).connections@ == not_touching(old(self).connections@, node_id@),
            *final(self) == (Graph { connections: final(self).connections, ..*old(self) }),
    {
        let ghost orig = self.connections@;
        let mut i: usize = 0;
        let ghost mut j: int = 0;
        while i < self.connections.len()
            invariant
                0 <= j <= orig.len(),
                self.connections@ == not_touching(orig.take(j), node_id@) + orig.skip(j),
                i as int == not_touching(orig.take(j), node_id@).len(),
                *self == (Graph { connections: self.connections, ..*old(self) }),
            decreases orig.len() - j,
        {
            proof {
                assert(self.connections@[i as int] == orig[j]);
                lemma_take_last(orig, j);
            }
            if self.connections[i].touches(node_id) {
                self.connections.remove(i);
            } else {
                i += 1;
            }
            proof {
                assert(self.connections@ =~= not_touching(orig.take(j + 1), node_id@) + orig.skip(j + 1));
                j = j + 1;
            }
        }
        proof {
            assert(orig.take(j) =~= orig);
        }
    }

    /// Takes out the first node with id `node_id` together with every
    /// connection that has an endpoint at `node_id`, so no edge is left
    /// dangling; stamps `updated_at` only when a node was found.
    pub fn remove_node(&mut self, node_id: &str) -> (r: Option<Node>)
        ensures
            r is None <==> !has_key(old(self).nodes@, node_id@),
            r is None ==> *final(self) == *old(self),
            r matches Some(n) ==> exists|i: int|
                {
                    &&& is_first_with_key(old(self).nodes@, node_id@, i)
                    &&& n == old(self).nodes@[i]
                    &&& final(self).nodes@ == old(self).nodes@.remove(i)
                },
            r is Some ==> final(self).connections@ == not_touching(old(self).connections@, node_id@),
            r is Some ==> is_clock_reading(final(self).updated_at),
            r is Some ==> *final(self) == (Graph {
                nodes: final(self).nodes,
                connections: final(self).connections,
                updated_at: final(self).updated_at,
                ..*old(self)
            }),
    {
        match index_of(&self.nodes, node_id) {
            Some(i) => {
                let n = self.nodes.remove(i);
                self.drop_touching(node_id);
                self.touch();
                Some(n)
            },
            None => None,
        }
    }

    /// The first node with id `node_id`, if any.
    pub fn find_node(&self, node_id: &str) -> (r: Option<&Node>)
        ensures
            r is None <==> !has_key(self.nodes@, node_id@),
            r matches Some(n) ==> exists|i: int|
                is_first_with_key(self.nodes@, node_id@, i) && *n == self.nodes@[i],
    {
        find_by_key(&self.nodes, node_id)
    }

    /// Mutable access to the first node with id `node_id`, if any.
    pub fn find_node_mut(&mut self, node_id: &str) -> (r: Option<&mut Node>)
        ensures
            r is None <==> !has_key(old(self).nodes@, node_id@),
            r is None ==> final(self).nodes@ == old(self).nodes@,
            r matches Some(n) ==> exists|i: int|
                {
                    &&& is_first_with_key(old(self).nodes@, node_id@, i)
                    &&& *n == old(self).nodes@[i]
                    &&& final(self).nodes@ == old(self).nodes@.update(i, *final(n))
                },
            *final(self) == (Graph { nodes: final(self).nodes, ..*old(self) }),
    {
        find_by_key_mut(&mut self.nodes, node_id)
    }

    /// Number of nodes.
    pub fn node_count(&self) -> (r: usize)
        ensures
            r == self.nodes@.len(),
    {
        self.nodes.len()
    }

    /// Appends `connection` and stamps `updated_at`.
    pub fn add_connection(&mut self, connection: Connection)
        ensures
            final(self).connections@ == old(self).connections@.push(connection),
            is_clock_reading(final(self).updated_at),
            *final(self) == (Graph {
                connections: final(self).connections,
                updated_at: final(self).updated_at,
                ..*old(self)
            }),
    {
        self.connections.push(connection);
        self.touch();
    }

    /// Takes out the first connection with id `connection_id`; stamps
    /// `updated_at` only when one was found.
    pub fn remove_connection(&mut self, connection_id: &str) -> (r: Option<Connection>)
        ensures
            r is None <==> !has_key(old(self).connections@, connection_id@),
            r is None ==> *final(self) == *old(self),
            r matches Some(c) ==> exists|i: int|
                {
                    &&& is_first_with_key(old(self).connections@, connection_id@, i)
                    &&& c == old(self).connections@[i]
                    &&& final(self).connections@ == old(self).connections@.remove(i)
                },
            r is Some ==> is_clock_reading(final(self).updated_at),
            r is Some ==> *final(self) == (Graph {
                connections: final(self).connections,
                updated_at: final(self).updated_at,
                ..*old(self)
            }),
    {
        match index_of(&self.connections, connection_id) {
            Some(i) => {
                let c = self.connections.remove(i);
                self.touch();
                Some(c)
            },
            None => None,
        }
    }

    /// Number of connections.
    pub fn connection_count(&self) -> (r: usize)
        ensures
            r == self.connections@.len(),
    {
        self.connections.len()
    }

    /// Every connection with an endpoint at `node_id`, in order.
    pub fn connections_for(&self, node_id: &str) -> (r: Vec<&Connection>)
        ensures
            r@.map_values(|c: &Connection| *c) == touching(self.connections@, node_id@),
    {
        let mut out: Vec<&Connection> = Vec::new();
        let mut i: usize = 0;
        while i < self.connections.len()
            invariant
                0 <= i <= self.connections@.len(),
                out@.map_values(|c: &Connection| *c) == touching(self.connections@.take(i as int), node_id@),
            decreases self.connections@.len() - i,
        {
            proof {
                lemma_take_last(self.connections@, i as int);
            }
            if self.connections[i].touches(node_id) {
                out.push(&self.connections[i]);
            }
            proof {
                assert(out@.map_values(|c: &Connection| *c) =~= touching(self.connections@.take(i as int + 1), node_id@));
            }
            i += 1;
        }
        proof {
            assert(self.connections@.take(i as int) =~= self.connections@);
        }
        out
    }

    /// The nodes directly connected to `node_id`: each far end counted once,
    /// in the order its first connection appears, and only when a node with
    /// that id exists in the graph.
    pub fn neighbors(&self, node_id: &str) -> (r: Vec<&Node>)
        ensures
            r@.map_values(|n: &Node| *n) == neighbor_nodes(self.nodes@, self.connections@, node_id@),
    {
        let mut seen: Vec<&str> = Vec::new();
        let mut out: Vec<&Node> = Vec::new();
        let mut i: usize = 0;
        while i < self.connections.len()
            invariant
                0 <= i <= self.connections@.len(),
                forall|o: Seq<char>|
                    (exists|k: int| 0 <= k < seen@.len() && #[trigger] seen@[k]@ == o) <==> leads_to(
                        self.connections@.take(i as int),
                        node_id@,
                        o,
                    ),
                out@.map_values(|n: &Node| *n) == neighbor_nodes(
                    self.nodes@,
                    self.connections@.take(i as int),
                    node_id@,
                ),
            decreases self.connections@.len() - i,
        {
            let ghost before = self.connections@.take(i as int);
            let ghost after = self.connections@.take(i as int + 1);
            proof {
                lemma_take_last(self.connections@, i as int);
            }
            let end = self.connections[i].other_end(node_id);
            let ghost seen_before = seen@;
            match end {
                Some(other) => {
                    if !seen_text(&seen, other) {
                        seen.push(other);
                        match find_by_key(&self.nodes, other) {
                            Some(n) => {
                                out.push(n);
                                proof {
                                    let w = choose|w: int| is_first_with_key(self.nodes@, other@, w) && *n == self.nodes@[w];
                                    let c = choose|c: int| is_first_with_key(self.nodes@, other@, c);
                                    assert(w == c) by {
                                        if w < c {
                                            assert(self.nodes@[w].key() != other@);
                                        } else if c < w {
                                            assert(self.nodes@[c].key() != other@);
                                        }
                                    }
                                }
                            },
                            None => {},
                        }
                    }
                },
                None => {},
            }
            proof {
                assert forall|o: Seq<char>|
                    (exists|k: int| 0 <= k < seen@.len() && #[trigger] seen@[k]@ == o) <==> leads_to(after, node_id@, o) by {
                    let in_seen = exists|k: int| 0 <= k < seen@.len() && #[trigger] seen@[k]@ == o;
                    let was_seen = exists|k: int| 0 <= k < seen_before.len() && #[trigger] seen_before[k]@ == o;
                    if leads_to(before, node_id@, o) {
                        let j = choose|j: int| 0 <= j < before.len() && #[trigger] before[j].spec_other_end(node_id@) == Some(o);
                        assert(after[j] == before[j]);
                    }
                    if leads_to(after, node_id@, o) && !leads_to(before, node_id@, o) {
                        let j = choose|j: int| 0 <= j < after.len() && #[trigger] after[j].spec_other_end(node_id@) == Some(o);
                        if j < i {
                            assert(before[j] == after[j]);
                        }
                        assert(j == i);
                    }
                    if was_seen {
                        let k = choose|k: int| 0 <= k < seen_before.len() && #[trigger] seen_before[k]@ == o;
                        assert(seen@[k] == seen_before[k]);
                    }
                    if in_seen && !was_seen {
                        let k = choose|k: int| 0 <= k < seen@.len() && #[trigger] seen@[k]@ == o;
                        assert(k == seen_before.len());
                        assert(after[i as int].spec_other_end(node_id@) == Some(o));
                    }
                    match end {
                        Some(other) => {
                            if other@ == o && !was_seen && !seen_before.contains(other) {
                                assert(seen@[seen@.len() - 1]@ == o);
                            }
                        },
                        None => {},
                    }
                }
                assert(out@.map_values(|n: &Node| *n) =~= neighbor_nodes(self.nodes@, after, node_id@));
            }
            i += 1;
        }
        proof {
            assert(self.connections@.take(i as int) =~= self.connections@);
        }
        out
    }

    /// Whether the graph has no nodes.
    pub fn is_empty(&self) -> (r: bool)
        ensures
            r == (self.nodes@.len() == 0),
    {
        self.nodes.len() == 0
    }
}

/// After a node's connections are dropped, no remaining connection has an
/// endpoint at that node: removing a node leaves no dangling edge.
pub proof fn law_no_dangling_after_removal(conns: Seq<Connection>, node_id: Seq<char>)
    ensures
        forall|k: int|
            0 <= k < not_touching(conns, node_id).len() ==> !(#[trigger] not_touching(conns, node_id)[k]).spec_touches(node_id),
    decreases conns.len(),
{
    if conns.len() > 0 {
        law_no_dangling_after_removal(conns.drop_last(), node_id);
        let rest = not_touching(conns.drop_last(), node_id);
        let all = not_touching(conns, node_id);
        assert forall|k: int| 0 <= k < all.len() implies !(#[trigger] all[k]).spec_touches(node_id) by {
            if k < rest.len() {
                assert(all[k] == rest[k]);
            }
        }
    }
}

/// Connections that do not touch the removed node all survive its removal.
pub proof fn law_removal_keeps_unrelated(conns: Seq<Connection>, node_id: Seq<char>)
    ensures
        not_touching(conns, node_id).len() + touching(conns, node_id).len() == conns.len(),
    decreases conns.len(),
{
    if conns.len() > 0 {
        law_removal_keeps_unrelated(conns.drop_last(), node_id);
    }
}

/// Every neighbour is a node of the graph reached by one of the
/// connections, and no two neighbours share an id.
pub proof fn law_neighbors_are_distinct_connected_nodes(nodes: Seq<Node>, conns: Seq<Connection>, node_id: Seq<char>)
    ensures
        forall|k: int| 0 <= k < neighbor_nodes(nodes, conns, node_id).len() ==> {
            &&& nodes.contains(#[trigger] neighbor_nodes(nodes, conns, node_id)[k])
            &&& leads_to(conns, node_id, neighbor_nodes(nodes, conns, node_id)[k].key())
        },
        forall|k: int, l: int|
            0 <= k < l < neighbor_nodes(nodes, conns, node_id).len() ==> (#[trigger] neighbor_nodes(nodes, conns, node_id)[k]).key()
                != (#[trigger] neighbor_nodes(nodes, conns, node_id)[l]).key(),
    decreases conns.len(),
{
    if conns.len() > 0 {
        let before = conns.drop_last();
        law_neighbors_are_distinct_connected_nodes(nodes, before, node_id);
        let rest = neighbor_nodes(nodes, before, node_id);
        let all = neighbor_nodes(nodes, conns, node_id);
        assert forall|k: int| 0 <= k < rest.len() implies leads_to(conns, node_id, #[trigger] rest[k].key()) by {
            let j = choose|j: int| 0 <= j < before.len() && #[trigger] before[j].spec_other_end(node_id) == Some(rest[k].key());
            assert(conns[j] == before[j]);
        }
        if let Some(o) = conns.last().spec_other_end(node_id) {
            if !leads_to(before, node_id, o) && has_key(nodes, o) {
                let c = choose|c: int| is_first_with_key(nodes, o, c);
                let w = choose|w: int| 0 <= w < nodes.len() && #[trigger] nodes[w].key() == o;
                assert(exists|c: int| is_first_with_key(nodes, o, c)) by {
                    lemma_first_exists(nodes, o, w);
                }
                assert(node_with_id(nodes, o).key() == o);
                assert(nodes.contains(node_with_id(nodes, o)));
                assert(conns[conns.len() - 1].spec_other_end(node_id) == Some(o));
                assert forall|k: int| 0 <= k < rest.len() implies (#[trigger] rest[k]).key() != o by {
                    let j = choose|j: int| 0 <= j < before.len() && #[trigger] before[j].spec_other_end(node_id) == Some(rest[k].key());
                }
            }
        }
    }
}

proof fn lemma_first_exists(nodes: Seq<Node>, o: Seq<char>, w: int)
    requires
        0 <= w < nodes.len(),
        nodes[w].key() == o,
    ensures
        exists|c: int| is_first_with_key(nodes, o, c),
    decreases w,
{
    if exists|j: int| 0 <= j < w && #[trigger] nodes[j].key() == o {
        let j = choose|j: int| 0 <= j < w && #[trigger] nodes[j].key() == o;
        lemma_first_exists(nodes, o, j);
    } else {
        assert(is_first_with_key(nodes, o, w));
    }
}


/// Every node across a connection at `node_id` is a neighbour, whatever the
/// connection's direction: when connection `j` leads from `node_id` to `o`
/// and the graph holds a node with id `o`, some neighbour has id `o`.
pub proof fn law_neighbors_complete(nodes: Seq<Node>, conns: Seq<Connection>, node_id: Seq<char>, j: int, o: Seq<char>)
    requires
        0 <= j < conns.len(),
        conns[j].spec_other_end(node_id) == Some(o),
        has_key(nodes, o),
    ensures
        exists|k: int|
            0 <= k < neighbor_nodes(nodes, conns, node_id).len() && (#[trigger] neighbor_nodes(nodes, conns, node_id)[k]).key()
                == o,
    decreases conns.len(),
{
    let before = conns.drop_last();
    let rest = neighbor_nodes(nodes, before, node_id);
    let all = neighbor_nodes(nodes, conns, node_id);
    assert(forall|k: int| 0 <= k < rest.len() ==> #[trigger] all[k] == rest[k]);
    if j < conns.len() - 1 {
        assert(before[j] == conns[j]);
        law_neighbors_complete(nodes, before, node_id, j, o);
        let k = choose|k: int| 0 <= k < rest.len() && (#[trigger] rest[k]).key() == o;
        assert(all[k] == rest[k]);
    } else if leads_to(before, node_id, o) {
        let j2 = choose|j2: int| 0 <= j2 < before.len() && #[trigger] before[j2].spec_other_end(node_id) == Some(o);
        law_neighbors_complete(nodes, before, node_id, j2, o);
        let k = choose|k: int| 0 <= k < rest.len() && (#[trigger] rest[k]).key() == o;
        assert(all[k] == rest[k]);
    } else {
        let w = choose|w: int| 0 <= w < nodes.len() && #[trigger] nodes[w].key() == o;
        lemma_first_exists(nodes, o, w);
        assert(node_with_id(nodes, o).key() == o);
        assert(all[rest.len() as int].key() == o);
    }
}

} // verus!
