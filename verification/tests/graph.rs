use explorer::connection::Connection;
use explorer::graph::Graph;
use explorer::node::{Node, NodeType};

fn node() -> Node {
    Node::new("N", "", NodeType::Text)
}

#[test]
fn new_is_empty() {
    let g = Graph::new("G", "d");
    assert!(g.nodes.is_empty());
    assert!(g.connections.is_empty());
}

#[test]
fn graph_set_title_changes_title() {
    let mut g = Graph::new("G", "d");
    g.set_title("New");
    assert_eq!(g.title, "New");
    assert!(g.updated_at >= g.created_at);
}

#[test]
fn graph_set_description_changes_description() {
    let mut g = Graph::new("G", "d");
    g.set_description("New");
    assert_eq!(g.description, "New");
    assert!(g.updated_at >= g.created_at);
}

#[test]
fn add_node_appends() {
    let mut g = Graph::new("G", "d");
    g.add_node(node());
    assert_eq!(g.node_count(), 1);
}

#[test]
fn remove_node_removes_it() {
    let mut g = Graph::new("G", "d");
    let n = node();
    let id = n.id.clone();
    g.add_node(n);
    assert!(g.remove_node(&id).is_some());
    assert_eq!(g.node_count(), 0);
}

#[test]
fn remove_node_also_removes_touching_connections() {
    let mut g = Graph::new("G", "d");
    let a = node();
    let b = node();
    let (aid, bid) = (a.id.clone(), b.id.clone());
    g.add_node(a);
    g.add_node(b);
    g.add_connection(Connection::new(&aid, &bid));
    g.remove_node(&aid);
    assert_eq!(g.connection_count(), 0, "edges touching a removed node must go");
}

#[test]
fn remove_node_absent_returns_none() {
    let mut g = Graph::new("G", "d");
    assert!(g.remove_node("nope").is_none());
}

#[test]
fn find_node_and_mut() {
    let mut g = Graph::new("G", "d");
    let n = node();
    let id = n.id.clone();
    g.add_node(n);
    assert!(g.find_node(&id).is_some());
    g.find_node_mut(&id).unwrap().set_title("Edited");
    assert_eq!(g.find_node(&id).unwrap().title, "Edited");
}

#[test]
fn add_connection_appends() {
    let mut g = Graph::new("G", "d");
    g.add_connection(Connection::new("a", "b"));
    assert_eq!(g.connection_count(), 1);
}

#[test]
fn remove_connection_present_returns_it() {
    let mut g = Graph::new("G", "d");
    let c = Connection::new("a", "b");
    let id = c.id.clone();
    g.add_connection(c);
    assert!(g.remove_connection(&id).is_some());
}

#[test]
fn remove_connection_absent_returns_none() {
    let mut g = Graph::new("G", "d");
    assert!(g.remove_connection("nope").is_none());
}

#[test]
fn connections_for_returns_edges_at_node() {
    let mut g = Graph::new("G", "d");
    g.add_connection(Connection::new("a", "b"));
    g.add_connection(Connection::new("a", "c"));
    g.add_connection(Connection::new("b", "c"));
    assert_eq!(g.connections_for("a").len(), 2);
}

#[test]
fn neighbors_returns_connected_nodes_deduped() {
    let mut g = Graph::new("G", "d");
    let a = node();
    let b = node();
    let c = node();
    let (aid, bid, cid) = (a.id.clone(), b.id.clone(), c.id.clone());
    g.add_node(a);
    g.add_node(b);
    g.add_node(c);
    g.add_connection(Connection::new(&aid, &bid));
    g.add_connection(Connection::new(&aid, &cid));
    g.add_connection(Connection::new(&aid, &bid)); // duplicate edge
    let neighbors = g.neighbors(&aid);
    assert_eq!(neighbors.len(), 2);
}

#[test]
fn neighbors_skips_missing_nodes() {
    let mut g = Graph::new("G", "d");
    let a = node();
    let aid = a.id.clone();
    g.add_node(a);
    g.add_connection(Connection::new(&aid, "ghost"));
    assert!(g.neighbors(&aid).is_empty());
}

#[test]
fn is_empty_reflects_nodes() {
    let mut g = Graph::new("G", "d");
    assert!(g.is_empty());
    g.add_node(node());
    assert!(!g.is_empty());
}

#[test]
fn remove_node_keeps_unrelated_connections() {
    let mut g = Graph::new("G", "d");
    let a = node();
    let b = node();
    let c = node();
    let (aid, bid, cid) = (a.id.clone(), b.id.clone(), c.id.clone());
    g.add_node(a);
    g.add_node(b);
    g.add_node(c);
    g.add_connection(Connection::new(&aid, &bid));
    g.add_connection(Connection::new(&bid, &cid));
    g.add_connection(Connection::new(&cid, &aid));
    g.remove_node(&aid);
    assert_eq!(g.connection_count(), 1);
    assert!(g.connections[0].touches(&bid) && g.connections[0].touches(&cid));
    assert!(g.connections_for(&aid).is_empty());
}

#[test]
fn neighbors_follow_first_appearance_order_both_directions() {
    let mut g = Graph::new("G", "d");
    let a = node();
    let b = node();
    let c = node();
    let (aid, bid, cid) = (a.id.clone(), b.id.clone(), c.id.clone());
    g.add_node(a);
    g.add_node(b);
    g.add_node(c);
    g.add_connection(Connection::new(&cid, &aid)); // incoming edge still counts
    g.add_connection(Connection::new(&bid, &cid)); // not touching a
    g.add_connection(Connection::new(&aid, &bid));
    g.add_connection(Connection::new(&aid, &cid)); // repeat of c
    let ids: Vec<String> = g.neighbors(&aid).iter().map(|n| n.id.clone()).collect();
    assert_eq!(ids, vec![cid, bid]);
}

#[test]
fn connections_for_keeps_order() {
    let mut g = Graph::new("G", "d");
    let first = Connection::new("x", "a");
    let second = Connection::new("a", "y");
    let (f, s) = (first.id.clone(), second.id.clone());
    g.add_connection(first);
    g.add_connection(Connection::new("x", "y"));
    g.add_connection(second);
    let ids: Vec<String> = g.connections_for("a").iter().map(|c| c.id.clone()).collect();
    assert_eq!(ids, vec![f, s]);
}
