use vstd::prelude::*;

verus! {

/// Which store category (or categories) a run writes to.
#[derive(Debug, Clone, Copy, PartialEq, Eq, Structural)]
pub enum IngestionTarget {
    Vector,
    Graph,
    Both,
}

/// Which concrete graph database adapter a run uses.
#[derive(Debug, Clone, Copy, PartialEq, Eq, Structural)]
pub enum GraphDbType {
    Neo4j,
    Falkordb,
    Graphiti,
}

impl IngestionTarget {
    /// True when the vector store receives the text.
    pub open spec fn spec_uses_vector(self) -> bool {
        self is Vector || self is Both
    }

    /// True when the graph store receives the text.
    pub open spec fn spec_uses_graph(self) -> bool {
        self is Graph || self is Both
    }
}

} // verus!
