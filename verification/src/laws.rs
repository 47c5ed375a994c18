//! What holds of a manager over any course of operations.
//!
//! A course of operations is a sequence of [`Op`]s. Each stands for one
//! call of a function of this crate that changes a manager, together with
//! the handle that the call returned, and [`ManagerView::after`] is what
//! that function's contract says of the manager afterwards.

use crate::handle::{ANFNodePtr, GraphPtr, Value};
use crate::node::NodeView;
use crate::view::ManagerView;
use vstd::prelude::*;

verus! {

/// One change to a manager.
pub enum Op {
    /// `new_graph` returned `graph`.
    NewGraph { graph: GraphPtr },
    /// `alloc_apply` or `apply` returned `node`.
    AllocApply { node: ANFNodePtr, operands: Seq<ANFNodePtr>, graph: GraphPtr },
    /// `alloc_param` or `add_parameter` returned `node`.
    AllocParam { node: ANFNodePtr, graph: GraphPtr },
    /// `alloc_constant` or `constant` returned `node`.
    AllocConstant { node: ANFNodePtr, value: Value },
    /// `set_output` was called on `graph`.
    SetOutput { graph: GraphPtr, out: ANFNodePtr },
    /// `set_flag` was called on `graph`.
    SetFlag { graph: GraphPtr, flag: Seq<char> },
    /// `add_root` was called.
    AddRoot { node: ANFNodePtr },
    /// `remove_root` was called.
    RemoveRoot { node: ANFNodePtr },
}

impl Op {
    /// Whether this operation appends to the parameters of `graph`.
    pub open spec fn adds_parameter_to(self, graph: GraphPtr) -> bool {
        self matches Op::AllocParam { graph: g, .. } && g == graph
    }

    /// Whether this operation changes what `graph` holds.
    pub open spec fn edits(self, graph: GraphPtr) -> bool {
        match self {
            Op::AllocParam { graph: g, .. } => g == graph,
            Op::SetOutput { graph: g, .. } => g == graph,
            Op::SetFlag { graph: g, .. } => g == graph,
            _ => false,
        }
    }
}

/// The nodes that `ops` append to the parameters of `graph`, in order.
pub open spec fn parameters_added(ops: Seq<Op>, graph: GraphPtr) -> Seq<ANFNodePtr>
    decreases ops.len(),
{
    if ops.len() == 0 {
        Seq::empty()
    } else if ops.last().adds_parameter_to(graph) {
        parameters_added(ops.drop_last(), graph).push(ops.last()->AllocParam_node)
    } else {
        parameters_added(ops.drop_last(), graph)
    }
}

/// Adding `nodes` as parameters to `graph`, one after another.
pub open spec fn adding_parameters(graph: GraphPtr, nodes: Seq<ANFNodePtr>) -> Seq<Op> {
    Seq::new(nodes.len(), |i: int| Op::AllocParam { node: nodes[i], graph })
}

/// Adding `nodes` as parameters to `graph` adds exactly them, in order.
pub proof fn lemma_adding_parameters_adds(graph: GraphPtr, nodes: Seq<ANFNodePtr>)
    ensures
        parameters_added(adding_parameters(graph, nodes), graph) == nodes,
    decreases nodes.len(),
{
    let ops = adding_parameters(graph, nodes);
    if nodes.len() > 0 {
        lemma_adding_parameters_adds(graph, nodes.drop_last());
        assert(ops.drop_last() =~= adding_parameters(graph, nodes.drop_last()));
    }
    assert(parameters_added(ops, graph) =~= nodes);
}

/// A node is of exactly one kind.
pub proof fn lemma_kind_exclusive(node: NodeView)
    ensures
        node is Apply || node is Parameter || node is Constant,
        !(node is Apply && node is Parameter),
        !(node is Apply && node is Constant),
        !(node is Parameter && node is Constant),
{
}

impl ManagerView {
    /// Whether `op` can be the next change: the handle that an allocation
    /// returned was not live before, and the graph that a change is made
    /// to is live.
    pub open spec fn admits(self, op: Op) -> bool {
        match op {
            Op::NewGraph { graph } => !self.has_graph(graph),
            Op::AllocApply { node, .. } => !self.has_node(node),
            Op::AllocParam { node, graph } => !self.has_node(node) && self.has_graph(graph),
            Op::AllocConstant { node, .. } => !self.has_node(node),
            Op::SetOutput { graph, .. } => self.has_graph(graph),
            Op::SetFlag { graph, .. } => self.has_graph(graph),
            Op::AddRoot { .. } => true,
            Op::RemoveRoot { .. } => true,
        }
    }

    /// The manager after `op`.
    pub open spec fn after(self, op: Op) -> ManagerView {
        match op {
            Op::NewGraph { graph } => self.new_graph(graph),
            Op::AllocApply { node, operands, graph } => self.alloc_apply(node, operands, graph),
            Op::AllocParam { node, graph } => self.alloc_param(node, graph),
            Op::AllocConstant { node, value } => self.alloc_constant(node, value),
            Op::SetOutput { graph, out } => self.set_output(graph, out),
            Op::SetFlag { graph, flag } => self.set_flag(graph, flag),
            Op::AddRoot { node } => self.add_root(node),
            Op::RemoveRoot { node } => self.remove_root(node),
        }
    }

    /// The manager after `ops`, the first of them first.
    pub open spec fn after_all(self, ops: Seq<Op>) -> ManagerView
        decreases ops.len(),
    {
        if ops.len() == 0 {
            self
        } else {
            self.after_all(ops.drop_last()).after(ops.last())
        }
    }

    /// Whether each of `ops` can be made in its turn.
    pub open spec fn admits_all(self, ops: Seq<Op>) -> bool
        decreases ops.len(),
    {
        ops.len() == 0 || {
            &&& self.admits_all(ops.drop_last())
            &&& self.after_all(ops.drop_last()).admits(ops.last())
        }
    }

    /// One change keeps a well-formed manager well formed.
    pub proof fn lemma_after_wf(self, op: Op)
        requires
            self.wf(),
            self.admits(op),
        ensures
            self.after(op).wf(),
    {
        match op {
            Op::AllocParam { node, graph } => self.lemma_alloc_param_wf(node, graph),
            _ => self.lemma_wf_carries(self.after(op)),
        }
    }

    /// Any course of operations keeps a well-formed manager well formed.
    pub proof fn lemma_after_all_wf(self, ops: Seq<Op>)
        requires
            self.wf(),
            self.admits_all(ops),
        ensures
            self.after_all(ops).wf(),
        decreases ops.len(),
    {
        if ops.len() > 0 {
            self.lemma_after_all_wf(ops.drop_last());
            self.after_all(ops.drop_last()).lemma_after_wf(ops.last());
        }
    }

    /// Handles stay valid, and nodes never change: a node handle that is
    /// live names the same node, of the same kind and content, after any
    /// course of operations.
    pub proof fn lemma_node_stable(self, ops: Seq<Op>, node: ANFNodePtr)
        requires
            self.has_node(node),
            self.admits_all(ops),
        ensures
            self.after_all(ops).has_node(node),
            self.after_all(ops).nodes[node] == self.nodes[node],
        decreases ops.len(),
    {
        if ops.len() > 0 {
            self.lemma_node_stable(ops.drop_last(), node);
        }
    }

    /// Handles stay valid, and graphs change only by the operations made
    /// on them: a graph handle that is live stays live over any course of
    /// operations, and names the same graph afterwards if none of them
    /// was made on it.
    pub proof fn lemma_graph_stable(self, ops: Seq<Op>, graph: GraphPtr)
        requires
            self.has_graph(graph),
            self.admits_all(ops),
        ensures
            self.after_all(ops).has_graph(graph),
            (forall|i: int| 0 <= i < ops.len() ==> !(#[trigger] ops[i]).edits(graph))
                ==> self.after_all(ops).graphs[graph] == self.graphs[graph],
        decreases ops.len(),
    {
        if ops.len() > 0 {
            let earlier = ops.drop_last();
            self.lemma_graph_stable(earlier, graph);
            if forall|i: int| 0 <= i < ops.len() ==> !(#[trigger] ops[i]).edits(graph) {
                assert forall|i: int| 0 <= i < earlier.len()
                    implies !(#[trigger] earlier[i]).edits(graph)
                by {
                    assert(earlier[i] == ops[i]);
                }
                assert(!ops[ops.len() - 1].edits(graph));
            }
        }
    }

    /// The parameter list of a graph only grows, by appending: after any
    /// course of operations it is what it was, followed by the parameters
    /// that those operations added to the graph, in the order of the calls.
    pub proof fn lemma_parameters_grow(self, ops: Seq<Op>, graph: GraphPtr)
        requires
            self.has_graph(graph),
            self.admits_all(ops),
        ensures
            self.after_all(ops).parameters(graph)
                == self.parameters(graph) + parameters_added(ops, graph),
        decreases ops.len(),
    {
        if ops.len() > 0 {
            let earlier = ops.drop_last();
            self.lemma_parameters_grow(earlier, graph);
            self.lemma_graph_stable(earlier, graph);
        }
        assert(self.after_all(ops).parameters(graph)
            =~= self.parameters(graph) + parameters_added(ops, graph));
    }

    /// Parameters come in call order: adding `nodes` one after another to
    /// a graph appends them to its parameter list as they came, so a graph
    /// that had no parameters then has exactly `nodes`.
    pub proof fn lemma_parameter_order(self, graph: GraphPtr, nodes: Seq<ANFNodePtr>)
        requires
            self.has_graph(graph),
            self.admits_all(adding_parameters(graph, nodes)),
        ensures
            self.after_all(adding_parameters(graph, nodes)).parameters(graph)
                == self.parameters(graph) + nodes,
            self.parameters(graph).len() == 0
                ==> self.after_all(adding_parameters(graph, nodes)).parameters(graph) == nodes,
    {
        self.lemma_parameters_grow(adding_parameters(graph, nodes), graph);
        lemma_adding_parameters_adds(graph, nodes);
        if self.parameters(graph).len() == 0 {
            assert(self.parameters(graph) + nodes =~= nodes);
        }
    }

    /// An apply node has the operands it was allocated with, in the order
    /// given, whatever is done to the manager afterwards.
    pub proof fn lemma_apply_operands(
        self,
        node: ANFNodePtr,
        operands: Seq<ANFNodePtr>,
        graph: GraphPtr,
        later: Seq<Op>,
    )
        requires
            self.alloc_apply(node, operands, graph).admits_all(later),
        ensures
            self.alloc_apply(node, operands, graph).after_all(later).has_node(node),
            self.alloc_apply(node, operands, graph).after_all(later).nodes[node] is Apply,
            self.alloc_apply(node, operands, graph).after_all(later).nodes[node].operands()
                == operands,
    {
        self.alloc_apply(node, operands, graph).lemma_node_stable(later, node);
    }

    /// A constant node gives back the payload it was allocated with, and
    /// is a constant and of no other kind, whatever is done to the manager
    /// afterwards.
    pub proof fn lemma_constant_round_trip(self, node: ANFNodePtr, value: Value, later: Seq<Op>)
        requires
            self.alloc_constant(node, value).admits_all(later),
        ensures
            self.alloc_constant(node, value).after_all(later).has_node(node),
            self.alloc_constant(node, value).after_all(later).nodes[node].value() == Some(value),
            self.alloc_constant(node, value).after_all(later).nodes[node] is Constant,
            !(self.alloc_constant(node, value).after_all(later).nodes[node] is Apply),
            !(self.alloc_constant(node, value).after_all(later).nodes[node] is Parameter),
    {
        self.alloc_constant(node, value).lemma_node_stable(later, node);
    }

    /// Setting a flag that is set changes nothing.
    pub proof fn lemma_set_flag_idempotent(self, graph: GraphPtr, flag: Seq<char>)
        requires
            self.has_graph(graph),
        ensures
            self.set_flag(graph, flag).has_flag(graph, flag),
            self.set_flag(graph, flag).set_flag(graph, flag) == self.set_flag(graph, flag),
            self.has_flag(graph, flag) ==> self.set_flag(graph, flag) == self,
    {
        let once = self.set_flag(graph, flag);
        assert(once.graphs[graph].flags.insert(flag) =~= once.graphs[graph].flags);
        assert(once.set_flag(graph, flag).graphs =~= once.graphs);
        if self.has_flag(graph, flag) {
            assert(self.graphs[graph].flags.insert(flag) =~= self.graphs[graph].flags);
            assert(once.graphs =~= self.graphs);
        }
    }

    /// A graph has no flag when it is allocated.
    pub proof fn lemma_new_graph_has_no_flag(self, graph: GraphPtr, flag: Seq<char>)
        ensures
            !self.new_graph(graph).has_flag(graph, flag),
    {
    }

    /// A flag is not set until it is set: over a course of operations
    /// without `set_flag` of `flag` on `graph`, the flag stays unset.
    pub proof fn lemma_flag_unset_until_set(self, ops: Seq<Op>, graph: GraphPtr, flag: Seq<char>)
        requires
            self.has_graph(graph),
            !self.has_flag(graph, flag),
            self.admits_all(ops),
            forall|i: int| 0 <= i < ops.len() ==> #[trigger] ops[i] != (Op::SetFlag { graph, flag }),
        ensures
            !self.after_all(ops).has_flag(graph, flag),
        decreases ops.len(),
    {
        if ops.len() > 0 {
            let earlier = ops.drop_last();
            assert forall|i: int| 0 <= i < earlier.len()
                implies #[trigger] earlier[i] != (Op::SetFlag { graph, flag })
            by {
                assert(earlier[i] == ops[i]);
            }
            self.lemma_flag_unset_until_set(earlier, graph, flag);
            self.lemma_graph_stable(earlier, graph);
            assert(ops[ops.len() - 1] != (Op::SetFlag { graph, flag }));
        }
    }

    /// A flag that is set stays set over any course of operations.
    pub proof fn lemma_flag_stays_set(self, ops: Seq<Op>, graph: GraphPtr, flag: Seq<char>)
        requires
            self.has_graph(graph),
            self.has_flag(graph, flag),
            self.admits_all(ops),
        ensures
            self.after_all(ops).has_flag(graph, flag),
        decreases ops.len(),
    {
        if ops.len() > 0 {
            self.lemma_flag_stays_set(ops.drop_last(), graph, flag);
            self.lemma_graph_stable(ops.drop_last(), graph);
        }
    }

    /// Only the latest return node of a graph is seen.
    pub proof fn lemma_latest_output_wins(
        self,
        graph: GraphPtr,
        first: ANFNodePtr,
        second: ANFNodePtr,
    )
        requires
            self.has_graph(graph),
        ensures
            self.set_output(graph, second).graphs[graph].output == Some(second),
            self.set_output(graph, first).set_output(graph, second)
                == self.set_output(graph, second),
    {
        assert(self.set_output(graph, first).set_output(graph, second).graphs
            =~= self.set_output(graph, second).graphs);
    }

    /// A node that was added to the roots is a root, adding it again
    /// changes nothing, and no other node becomes or ceases to be a root
    /// with it.
    pub proof fn lemma_add_root_is_root(self, node: ANFNodePtr, other: ANFNodePtr)
        ensures
            self.add_root(node).is_root(node),
            self.add_root(node).add_root(node) == self.add_root(node),
            other != node ==> self.add_root(node).is_root(other) == self.is_root(other),
    {
        assert(self.add_root(node).roots.insert(node) =~= self.add_root(node).roots);
    }

    /// A node that was removed from the roots is no root, and no other
    /// node becomes or ceases to be a root with it.
    pub proof fn lemma_remove_root_is_no_root(self, node: ANFNodePtr, other: ANFNodePtr)
        ensures
            !self.remove_root(node).is_root(node),
            other != node ==> self.remove_root(node).is_root(other) == self.is_root(other),
    {
    }

    /// A node that was never added to the roots is no root: over a course
    /// of operations without `add_root` of `node`, a node that was no root
    /// is none afterwards.
    pub proof fn lemma_never_added_never_root(self, ops: Seq<Op>, node: ANFNodePtr)
        requires
            !self.is_root(node),
            self.admits_all(ops),
            forall|i: int| 0 <= i < ops.len() ==> #[trigger] ops[i] != (Op::AddRoot { node }),
        ensures
            !self.after_all(ops).is_root(node),
        decreases ops.len(),
    {
        if ops.len() > 0 {
            let earlier = ops.drop_last();
            assert forall|i: int| 0 <= i < earlier.len()
                implies #[trigger] earlier[i] != (Op::AddRoot { node })
            by {
                assert(earlier[i] == ops[i]);
            }
            self.lemma_never_added_never_root(earlier, node);
            assert(ops[ops.len() - 1] != (Op::AddRoot { node }));
        }
    }

    /// A manager has no root when it is made.
    pub proof fn lemma_empty_has_no_root(node: ANFNodePtr)
        ensures
            !ManagerView::empty().is_root(node),
    {
    }
}

} // verus!
