//! The mathematical model of a manager, over which every contract of this
//! crate is stated.

use crate::graph::GraphView;
use crate::handle::{ANFNodePtr, GraphPtr, Value};
use crate::node::NodeView;
use vstd::prelude::*;

verus! {

/// What a manager is: the graph and the node at each live handle, and the
/// set of root nodes.
#[verifier::ext_equal]
pub struct ManagerView {
    pub graphs: Map<GraphPtr, GraphView>,
    pub nodes: Map<ANFNodePtr, NodeView>,
    pub roots: Set<ANFNodePtr>,
}

impl ManagerView {
    /// A manager without graphs, nodes or roots.
    pub open spec fn empty() -> ManagerView {
        ManagerView { graphs: Map::empty(), nodes: Map::empty(), roots: Set::empty() }
    }

    /// Whether `graph` names a graph of this manager.
    pub open spec fn has_graph(self, graph: GraphPtr) -> bool {
        self.graphs.contains_key(graph)
    }

    /// Whether `node` names a node of this manager.
    pub open spec fn has_node(self, node: ANFNodePtr) -> bool {
        self.nodes.contains_key(node)
    }

    /// The parameters of `graph` in the order they were added.
    pub open spec fn parameters(self, graph: GraphPtr) -> Seq<ANFNodePtr> {
        self.graphs[graph].parameters
    }

    /// Whether `flag` is set on `graph`.
    pub open spec fn has_flag(self, graph: GraphPtr, flag: Seq<char>) -> bool {
        self.graphs[graph].flags.contains(flag)
    }

    /// Whether `node` is a root.
    pub open spec fn is_root(self, node: ANFNodePtr) -> bool {
        self.roots.contains(node)
    }

    /// Whether `node` is a parameter node owned by `graph`.
    pub open spec fn is_parameter_of(self, node: ANFNodePtr, graph: GraphPtr) -> bool {
        self.nodes.contains_key(node) && self.nodes[node] == (NodeView::Parameter { owner: graph })
    }

    /// Whether `node` is an apply node whose operand 0 is a constant that
    /// carries `operator`.
    pub open spec fn is_apply_of(self, node: ANFNodePtr, operator: Value) -> bool {
        &&& self.nodes[node] is Apply
        &&& self.nodes[node].operands().len() > 0
        &&& self.nodes.contains_key(self.nodes[node].operands()[0])
        &&& self.nodes[self.nodes[node].operands()[0]] == (NodeView::Constant { value: operator })
    }

    /// The manager with the empty graph `graph` added.
    pub open spec fn new_graph(self, graph: GraphPtr) -> ManagerView {
        ManagerView { graphs: self.graphs.insert(graph, GraphView::empty()), ..self }
    }

    /// The manager with the apply node `node` added, owned by `graph`, over
    /// `operands`.
    pub open spec fn alloc_apply(
        self,
        node: ANFNodePtr,
        operands: Seq<ANFNodePtr>,
        graph: GraphPtr,
    ) -> ManagerView {
        ManagerView {
            nodes: self.nodes.insert(node, NodeView::Apply { owner: graph, operands }),
            ..self
        }
    }

    /// The manager with the parameter node `node` added, owned by `graph`
    /// and appended to its parameters.
    pub open spec fn alloc_param(self, node: ANFNodePtr, graph: GraphPtr) -> ManagerView {
        ManagerView {
            graphs: self.graphs.insert(
                graph,
                GraphView {
                    parameters: self.graphs[graph].parameters.push(node),
                    ..self.graphs[graph]
                },
            ),
            nodes: self.nodes.insert(node, NodeView::Parameter { owner: graph }),
            ..self
        }
    }

    /// The manager with the constant node `node` added, carrying `value`.
    pub open spec fn alloc_constant(self, node: ANFNodePtr, value: Value) -> ManagerView {
        ManagerView { nodes: self.nodes.insert(node, NodeView::Constant { value }), ..self }
    }

    /// The manager with `out` as the return node of `graph`.
    pub open spec fn set_output(self, graph: GraphPtr, out: ANFNodePtr) -> ManagerView {
        ManagerView {
            graphs: self.graphs.insert(
                graph,
                GraphView { output: Some(out), ..self.graphs[graph] },
            ),
            ..self
        }
    }

    /// The manager with `flag` set on `graph`.
    pub open spec fn set_flag(self, graph: GraphPtr, flag: Seq<char>) -> ManagerView {
        ManagerView {
            graphs: self.graphs.insert(
                graph,
                GraphView { flags: self.graphs[graph].flags.insert(flag), ..self.graphs[graph] },
            ),
            ..self
        }
    }

    /// The manager with `node` among its roots.
    pub open spec fn add_root(self, node: ANFNodePtr) -> ManagerView {
        ManagerView { roots: self.roots.insert(node), ..self }
    }

    /// The manager with `node` not among its roots.
    pub open spec fn remove_root(self, node: ANFNodePtr) -> ManagerView {
        ManagerView { roots: self.roots.remove(node), ..self }
    }

    /// Parameter lists and parameter nodes agree: the parameters of a graph
    /// are distinct parameter nodes that it owns, and every parameter node
    /// is listed by the graph that owns it.
    pub open spec fn wf(self) -> bool {
        &&& forall|graph: GraphPtr, i: int|
            self.has_graph(graph) && 0 <= i < self.parameters(graph).len()
                ==> self.is_parameter_of(#[trigger] self.parameters(graph)[i], graph)
        &&& forall|graph: GraphPtr|
            #[trigger] self.has_graph(graph) ==> self.parameters(graph).no_duplicates()
        &&& forall|node: ANFNodePtr, graph: GraphPtr|
            #[trigger] self.is_parameter_of(node, graph)
                ==> self.has_graph(graph) && self.parameters(graph).contains(node)
    }

    /// A change that keeps every graph's parameters and every node, and
    /// adds only graphs without parameters and nodes that are no
    /// parameters, keeps the manager well formed.
    pub proof fn lemma_wf_carries(self, next: ManagerView)
        requires
            self.wf(),
            forall|g: GraphPtr| #[trigger] self.has_graph(g) ==> next.has_graph(g),
            forall|g: GraphPtr|
                #[trigger] next.has_graph(g) ==> if self.has_graph(g) {
                    next.parameters(g) == self.parameters(g)
                } else {
                    next.parameters(g).len() == 0
                },
            forall|n: ANFNodePtr|
                #[trigger] self.has_node(n) ==> next.has_node(n) && next.nodes[n] == self.nodes[n],
            forall|n: ANFNodePtr|
                #[trigger] next.has_node(n) ==> self.has_node(n) || !(next.nodes[n] is Parameter),
        ensures
            next.wf(),
    {
        assert forall|g: GraphPtr, i: int|
            next.has_graph(g) && 0 <= i < next.parameters(g).len()
            implies next.is_parameter_of(#[trigger] next.parameters(g)[i], g)
        by {
            assert(self.has_graph(g));
            assert(self.is_parameter_of(self.parameters(g)[i], g));
            assert(self.has_node(self.parameters(g)[i]));
        }
        assert forall|g: GraphPtr| #[trigger] next.has_graph(g)
            implies next.parameters(g).no_duplicates()
        by {
            assert(self.has_graph(g) ==> self.parameters(g).no_duplicates());
        }
        assert forall|n: ANFNodePtr, g: GraphPtr| #[trigger] next.is_parameter_of(n, g)
            implies next.has_graph(g) && next.parameters(g).contains(n)
        by {
            assert(next.has_node(n));
            assert(self.has_node(n));
            assert(self.is_parameter_of(n, g));
            assert(self.has_graph(g));
        }
    }

    /// Adding a parameter node to a live graph, under a handle that was not
    /// live, keeps the manager well formed.
    pub proof fn lemma_alloc_param_wf(self, node: ANFNodePtr, graph: GraphPtr)
        requires
            self.wf(),
            self.has_graph(graph),
            !self.has_node(node),
        ensures
            self.alloc_param(node, graph).wf(),
    {
        let next = self.alloc_param(node, graph);
        let before = self.parameters(graph);
        assert(next.parameters(graph) == before.push(node));
        // No parameter of any graph is the new node: they were all live.
        assert forall|g: GraphPtr, i: int|
            self.has_graph(g) && 0 <= i < self.parameters(g).len()
            implies #[trigger] self.parameters(g)[i] != node
        by {
            assert(self.is_parameter_of(self.parameters(g)[i], g));
        }
        assert forall|g: GraphPtr, i: int|
            next.has_graph(g) && 0 <= i < next.parameters(g).len()
            implies next.is_parameter_of(#[trigger] next.parameters(g)[i], g)
        by {
            if g != graph || i < before.len() {
                assert(self.is_parameter_of(self.parameters(g)[i], g));
            }
        }
        assert forall|g: GraphPtr| #[trigger] next.has_graph(g)
            implies next.parameters(g).no_duplicates()
        by {
            assert(self.has_graph(g));
            if g == graph {
                assert forall|i: int, j: int|
                    0 <= i < before.len() + 1 && 0 <= j < before.len() + 1 && i != j
                    implies before.push(node)[i] != before.push(node)[j]
                by {
                    if i < before.len() {
                        assert(self.parameters(graph)[i] != node);
                    }
                    if j < before.len() {
                        assert(self.parameters(graph)[j] != node);
                    }
                }
            }
        }
        assert forall|n: ANFNodePtr, g: GraphPtr| #[trigger] next.is_parameter_of(n, g)
            implies next.has_graph(g) && next.parameters(g).contains(n)
        by {
            if n == node {
                assert(next.parameters(g)[before.len() as int] == n);
            } else {
                assert(self.is_parameter_of(n, g));
                let i = choose|i: int|
                    0 <= i < self.parameters(g).len() && self.parameters(g)[i] == n;
                assert(next.parameters(g)[i] == n);
            }
        }
    }
}

} // verus!
