use vstd::prelude::*;

verus! {

/// What the registry knows of one node.
#[derive(Debug, Clone, Copy, PartialEq, Eq, Structural)]
pub struct NodeInfo {
    pub id: u64,
    pub cpu_cores: u32,
    pub memory_mb: u64,
}

/// Errors of the registry's own operations.
#[derive(Debug, Clone, Copy, PartialEq, Eq, Structural)]
pub enum NodeError {
    NotFound,
}

/// The first node in `nodes` whose id is `id`, if any.
pub open spec fn first_with_id(nodes: Seq<NodeInfo>, id: u64) -> Option<NodeInfo>
    decreases nodes.len(),
{
    if nodes.len() == 0 {
        None
    } else if nodes[0].id == id {
        Some(nodes[0])
    } else {
        first_with_id(nodes.drop_first(), id)
    }
}

/// The registry's domain service: the nodes it was built with, read-only
/// once it is shared.
pub struct Service {
    nodes: Vec<NodeInfo>,
}

impl View for Service {
    type V = Seq<NodeInfo>;

    closed spec fn view(&self) -> Seq<NodeInfo> {
        self.nodes@
    }
}

impl Service {
    /// A service that knows no nodes yet.
    pub fn new() -> (s: Service)
        ensures
            s@ == Seq::<NodeInfo>::empty(),
    {
        Service { nodes: Vec::new() }
    }

    /// A service that knows `nodes`, in this order.
    pub fn from_nodes(nodes: Vec<NodeInfo>) -> (s: Service)
        ensures
            s@ == nodes@,
    {
        Service { nodes }
    }

    /// All known nodes, in order.
    pub fn list_nodes(&self) -> (r: Vec<NodeInfo>)
        ensures
            r@ == self@,
    {
        let mut out: Vec<NodeInfo> = Vec::new();
        let mut i: usize = 0;
        while i < self.nodes.len()
            invariant
                i <= self.nodes@.len(),
                out@ == self.nodes@.take(i as int),
            decreases self.nodes@.len() - i,
        {
            out.push(self.nodes[i]);
            proof {
                assert(self.nodes@.take(i + 1) == self.nodes@.take(i as int).push(self.nodes@[i as int]));
            }
            i = i + 1;
        }
        proof {
            assert(self.nodes@.take(i as int) == self.nodes@);
        }
        out
    }

    /// The first node with the given id, or `NotFound`.
    pub fn get_node(&self, id: u64) -> (r: Result<NodeInfo, NodeError>)
        ensures
            r == (match first_with_id(self@, id) {
                Some(n) => Ok::<NodeInfo, NodeError>(n),
                None => Err(NodeError::NotFound),
            }),
    {
        let mut i: usize = 0;
        proof {
            assert(self.nodes@.skip(0) == self.nodes@);
        }
        while i < self.nodes.len()
            invariant
                i <= self.nodes@.len(),
                first_with_id(self.nodes@, id) == first_with_id(self.nodes@.skip(i as int), id),
            decreases self.nodes@.len() - i,
        {
            proof {
                assert(self.nodes@.skip(i as int).drop_first() == self.nodes@.skip(i + 1));
            }
            if self.nodes[i].id == id {
                return Ok(self.nodes[i]);
            }
            i = i + 1;
        }
        Err(NodeError::NotFound)
    }

    /// How many nodes the service knows.
    pub fn node_count(&self) -> (r: usize)
        ensures
            r == self@.len(),
    {
        self.nodes.len()
    }
}

} // verus!
