use vstd::prelude::*;

verus! {

/// A node of a plain node-link graph description.
#[derive(Clone, Debug, PartialEq, Eq)]
pub struct Node {
    pub id: usize,
    pub name: String,
    pub color: String,
}

/// A directed link between two nodes.
#[derive(Clone, Debug, PartialEq, Eq)]
pub struct Link {
    pub from: Node,
    pub to: Node,
}

/// A node-link graph description.
pub struct Graph {
    pub nodes: Vec<Node>,
    pub links: Vec<Link>,
}

impl Graph {
    /// The graph with no nodes and no links.
    pub fn new() -> (r: Self)
        ensures
            r.nodes@.len() == 0,
            r.links@.len() == 0,
    {
        Self { nodes: Vec::new(), links: Vec::new() }
    }
}

} // verus!
