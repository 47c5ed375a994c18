//! Graphs: what a manager stores for one function scope.

use crate::handle::{ANFNodePtr, GraphPtr, Value};
use crate::manager::GraphManager;
use vstd::hash_set::StringHashSet;
use vstd::prelude::*;

verus! {

/// One function scope as the manager stores it.
pub struct Graph {
    pub(crate) parameters: Vec<ANFNodePtr>,
    pub(crate) return_: Option<ANFNodePtr>,
    pub(crate) flags: StringHashSet,
}

/// What a graph is: its parameters in the order they were added, the
/// node it returns if one was set, and its flags.
#[verifier::ext_equal]
pub struct GraphView {
    pub parameters: Seq<ANFNodePtr>,
    pub output: Option<ANFNodePtr>,
    pub flags: Set<Seq<char>>,
}

impl GraphView {
    /// A graph without parameters, return node or flags.
    pub open spec fn empty() -> GraphView {
        GraphView { parameters: Seq::empty(), output: None, flags: Set::empty() }
    }
}

impl Graph {
    pub open(crate) spec fn view(&self) -> GraphView {
        GraphView { parameters: self.parameters@, output: self.return_, flags: self.flags@ }
    }

    /// A graph without parameters, return node or flags.
    pub(crate) fn new() -> (graph: Graph)
        ensures
            graph@ == GraphView::empty(),
    {
        Graph { parameters: Vec::new(), return_: None, flags: StringHashSet::new() }
    }
}

/// What can be done with a graph. The operations that read or change the
/// graph require that the handle names a graph of `manager`;
/// [`GraphManager::get_graph`] tells whether it does.
impl GraphPtr {
    /// The return node of this graph, if one was set.
    pub fn get_output(&self, manager: &GraphManager) -> (out: Option<ANFNodePtr>)
        requires
            manager@.has_graph(*self),
        ensures
            out == manager@.graphs[*self].output,
    {
        manager.get_graph(*self).unwrap().return_
    }

    /// Makes `out` the return node of this graph, in place of any earlier
    /// one.
    pub fn set_output(&self, manager: &mut GraphManager, out: ANFNodePtr)
        requires
            old(manager)@.has_graph(*self),
        ensures
            final(manager)@ == old(manager)@.set_output(*self, out),
            old(manager)@.wf() ==> final(manager)@.wf(),
    {
        let graph = manager.get_graph_mut(*self);
        graph.return_ = Some(out);
        proof {
            if old(manager)@.wf() {
                old(manager)@.lemma_wf_carries(final(manager)@);
            }
        }
    }

    /// The parameters of this graph, in the order they were added.
    pub fn parameters(&self, manager: &GraphManager) -> (list: Vec<ANFNodePtr>)
        requires
            manager@.has_graph(*self),
        ensures
            list@ == manager@.parameters(*self),
    {
        manager.get_graph(*self).unwrap().parameters.clone()
    }

    /// Allocates a parameter node owned by this graph and appends it to
    /// the parameters.
    pub fn add_parameter(&self, manager: &mut GraphManager) -> (node: ANFNodePtr)
        requires
            old(manager)@.has_graph(*self),
        ensures
            !old(manager)@.has_node(node),
            final(manager)@ == old(manager)@.alloc_param(node, *self),
            old(manager)@.wf() ==> final(manager)@.wf(),
    {
        manager.alloc_param(*self)
    }

    /// Allocates a constant node that carries `val`.
    pub fn constant(&self, manager: &mut GraphManager, val: Value) -> (node: ANFNodePtr)
        ensures
            !old(manager)@.has_node(node),
            final(manager)@ == old(manager)@.alloc_constant(node, val),
            old(manager)@.wf() ==> final(manager)@.wf(),
    {
        manager.alloc_constant(val)
    }

    /// Allocates an apply node owned by this graph over `inputs`, in the
    /// order given.
    pub fn apply(&self, manager: &mut GraphManager, inputs: Vec<ANFNodePtr>) -> (node: ANFNodePtr)
        ensures
            !old(manager)@.has_node(node),
            final(manager)@ == old(manager)@.alloc_apply(node, inputs@, *self),
            old(manager)@.wf() ==> final(manager)@.wf(),
    {
        manager.alloc_apply(inputs, *self)
    }

    /// Sets `flag` on this graph. Setting a flag twice is setting it once.
    pub fn set_flag(&self, manager: &mut GraphManager, flag: String)
        requires
            old(manager)@.has_graph(*self),
        ensures
            final(manager)@ == old(manager)@.set_flag(*self, flag@),
            old(manager)@.wf() ==> final(manager)@.wf(),
    {
        let graph = manager.get_graph_mut(*self);
        graph.flags.insert(flag);
        proof {
            if old(manager)@.wf() {
                old(manager)@.lemma_wf_carries(final(manager)@);
            }
        }
    }

    /// Whether `flag` is set on this graph.
    pub fn has_flag(&self, manager: &GraphManager, flag: &String) -> (found: bool)
        requires
            manager@.has_graph(*self),
        ensures
            found == manager@.has_flag(*self, flag@),
    {
        manager.get_graph(*self).unwrap().flags.contains(flag.as_str())
    }
}

} // verus!
