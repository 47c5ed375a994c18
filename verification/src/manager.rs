//! The manager: the one place where graphs and nodes are allocated.

use crate::arena::{
    graph_arena_get, graph_arena_get_mut, graph_arena_insert, graph_arena_map, graph_arena_new,
    node_arena_get, node_arena_insert, node_arena_map, node_arena_new,
};
use crate::graph::Graph;
use crate::handle::{ANFNodePtr, GraphPtr, Value};
use crate::node::{ANFNode, ANFNodeType};
use crate::view::ManagerView;
use generational_arena::Arena;
use std::collections::HashSet;
use vstd::prelude::*;

verus! {

/// Why a handle could not be followed.
#[derive(Clone, Copy, Debug, PartialEq, Eq, Structural)]
pub enum HandleError {
    /// The handle names no slot and generation that this manager has
    /// filled: it comes from another manager.
    StaleHandle,
}

/// Owns every graph and node of one program, and the set of root nodes.
///
/// Nothing is ever removed, so a handle that the manager issued stays live.
/// A handle says nothing of the manager it comes from: following one that
/// another manager issued is an error on the caller's side, which is
/// answered with [`HandleError::StaleHandle`] where the slot and generation
/// it names are not filled here, and goes unnoticed where they are.
pub struct GraphManager {
    roots: HashSet<u128>,
    all_nodes: Arena<ANFNode>,
    graphs: Arena<Graph>,
}

impl GraphManager {
    pub closed spec fn view(&self) -> ManagerView {
        ManagerView {
            graphs: graph_arena_map(self.graphs),
            nodes: node_arena_map(self.all_nodes),
            roots: Set::new(|node: ANFNodePtr| self.roots@.contains(node.spec_key())),
        }
    }

    /// A manager without graphs, nodes or roots.
    pub fn new() -> (manager: Self)
        ensures
            manager@ == ManagerView::empty(),
            manager@.wf(),
    {
        let manager = GraphManager {
            roots: HashSet::new(),
            all_nodes: node_arena_new(),
            graphs: graph_arena_new(),
        };
        assert(manager@ =~= ManagerView::empty());
        manager
    }

    /// The graph that `p` names, or `StaleHandle` if it names none here.
    pub fn get_graph(&self, p: GraphPtr) -> (found: Result<&Graph, HandleError>)
        ensures
            found is Ok <==> self@.has_graph(p),
            found is Ok ==> found->Ok_0@ == self@.graphs[p],
            found is Err ==> found->Err_0 == HandleError::StaleHandle,
    {
        match graph_arena_get(&self.graphs, p) {
            Some(graph) => Ok(graph),
            None => Err(HandleError::StaleHandle),
        }
    }

    /// The node that `p` names, or `StaleHandle` if it names none here.
    pub fn get_node(&self, p: ANFNodePtr) -> (found: Result<&ANFNode, HandleError>)
        ensures
            found is Ok <==> self@.has_node(p),
            found is Ok ==> found->Ok_0@ == self@.nodes[p],
            found is Err ==> found->Err_0 == HandleError::StaleHandle,
    {
        match node_arena_get(&self.all_nodes, p) {
            Some(node) => Ok(node),
            None => Err(HandleError::StaleHandle),
        }
    }

    /// Exclusive access to the graph that `p` names. Whatever the caller
    /// makes of it is what the manager holds at `p` afterwards.
    pub(crate) fn get_graph_mut(&mut self, p: GraphPtr) -> (graph: &mut Graph)
        requires
            old(self)@.has_graph(p),
        ensures
            (*graph)@ == old(self)@.graphs[p],
            final(self)@ == (ManagerView {
                graphs: old(self)@.graphs.insert(p, (*final(graph))@),
                ..old(self)@
            }),
    {
        graph_arena_get_mut(&mut self.graphs, p).unwrap()
    }

    /// Allocates an empty graph.
    pub fn new_graph(&mut self) -> (graph: GraphPtr)
        ensures
            !old(self)@.has_graph(graph),
            final(self)@ == old(self)@.new_graph(graph),
            old(self)@.wf() ==> final(self)@.wf(),
    {
        let graph = graph_arena_insert(&mut self.graphs, Graph::new());
        proof {
            if old(self)@.wf() {
                old(self)@.lemma_wf_carries(final(self)@);
            }
        }
        graph
    }

    /// Allocates an apply node owned by `graph` over `params`, in the
    /// order given.
    pub fn alloc_apply(&mut self, params: Vec<ANFNodePtr>, graph: GraphPtr) -> (node: ANFNodePtr)
        ensures
            !old(self)@.has_node(node),
            final(self)@ == old(self)@.alloc_apply(node, params@, graph),
            old(self)@.wf() ==> final(self)@.wf(),
    {
        let node = node_arena_insert(
            &mut self.all_nodes,
            ANFNode { node: ANFNodeType::Apply(graph, params) },
        );
        proof {
            if old(self)@.wf() {
                old(self)@.lemma_wf_carries(final(self)@);
            }
        }
        node
    }

    /// Allocates a parameter node owned by `graph` and appends it to the
    /// parameters of `graph`.
    pub fn alloc_param(&mut self, graph: GraphPtr) -> (node: ANFNodePtr)
        requires
            old(self)@.has_graph(graph),
        ensures
            !old(self)@.has_node(node),
            final(self)@ == old(self)@.alloc_param(node, graph),
            old(self)@.wf() ==> final(self)@.wf(),
    {
        let listed = graph_arena_get_mut(&mut self.graphs, graph).unwrap();
        let node = node_arena_insert(
            &mut self.all_nodes,
            ANFNode { node: ANFNodeType::Parameter(graph) },
        );
        listed.parameters.push(node);
        proof {
            if old(self)@.wf() {
                old(self)@.lemma_alloc_param_wf(node, graph);
            }
        }
        node
    }

    /// Allocates a constant node that carries `val`. It belongs to no
    /// graph.
    pub fn alloc_constant(&mut self, val: Value) -> (node: ANFNodePtr)
        ensures
            !old(self)@.has_node(node),
            final(self)@ == old(self)@.alloc_constant(node, val),
            old(self)@.wf() ==> final(self)@.wf(),
    {
        let node = node_arena_insert(
            &mut self.all_nodes,
            ANFNode { node: ANFNodeType::Constant(val) },
        );
        proof {
            if old(self)@.wf() {
                old(self)@.lemma_wf_carries(final(self)@);
            }
        }
        node
    }

    /// Makes `node` a root. Adding a root twice is adding it once.
    pub fn add_root(&mut self, node: ANFNodePtr)
        ensures
            final(self)@ == old(self)@.add_root(node),
            old(self)@.wf() ==> final(self)@.wf(),
    {
        let key: u128 = node.key();
        self.roots.insert(key);
        proof {
            assert forall|other: ANFNodePtr|
                final(self)@.roots.contains(other) == old(self)@.add_root(node).roots.contains(
                    other,
                ) by {
                ANFNodePtr::lemma_key_injective(other, node);
            }
            assert(final(self)@ =~= old(self)@.add_root(node));
            if old(self)@.wf() {
                old(self)@.lemma_wf_carries(final(self)@);
            }
        }
    }

    /// Makes `node` no root, whether or not it was one.
    pub fn remove_root(&mut self, node: ANFNodePtr)
        ensures
            final(self)@ == old(self)@.remove_root(node),
            old(self)@.wf() ==> final(self)@.wf(),
    {
        let key: u128 = node.key();
        self.roots.remove(&key);
        proof {
            assert forall|other: ANFNodePtr|
                final(self)@.roots.contains(other) == old(self)@.remove_root(node).roots.contains(
                    other,
                ) by {
                ANFNodePtr::lemma_key_injective(other, node);
            }
            assert(final(self)@ =~= old(self)@.remove_root(node));
            if old(self)@.wf() {
                old(self)@.lemma_wf_carries(final(self)@);
            }
        }
    }

    /// Whether `node` is a root.
    pub fn is_root(&self, node: ANFNodePtr) -> (found: bool)
        ensures
            found == self@.is_root(node),
    {
        let key: u128 = node.key();
        self.roots.contains(&key)
    }
}

} // verus!
