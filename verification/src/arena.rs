//! The arenas that hold graphs and nodes.
//!
//! Storage is `generational_arena::Arena`. Nothing in this file is proved:
//! each function states what the arena's source shows of one of its methods,
//! over the two maps named below.

use crate::graph::{Graph, GraphView};
use crate::handle::{ANFNodePtr, GraphPtr};
use crate::node::{ANFNode, NodeView};
use generational_arena::{Arena, Index};
use vstd::prelude::*;

verus! {

/// `generational_arena::Arena`, opaque to the verifier.
#[verifier::external_type_specification]
#[verifier::external_body]
#[verifier::reject_recursive_types(T)]
pub struct ExArena<T>(Arena<T>);

/// What an arena of graphs holds: the graph at each live handle.
pub uninterp spec fn graph_arena_map(arena: Arena<Graph>) -> Map<GraphPtr, GraphView>;

/// What an arena of nodes holds: the node at each live handle.
pub uninterp spec fn node_arena_map(arena: Arena<ANFNode>) -> Map<ANFNodePtr, NodeView>;

/// `Arena::new`: an arena in which no handle is live.
#[verifier::external_body]
pub(crate) fn graph_arena_new() -> (arena: Arena<Graph>)
    ensures
        graph_arena_map(arena).dom() == Set::<GraphPtr>::empty(),
{
    Arena::new()
}

/// `Arena::new`: an arena in which no handle is live.
#[verifier::external_body]
pub(crate) fn node_arena_new() -> (arena: Arena<ANFNode>)
    ensures
        node_arena_map(arena).dom() == Set::<ANFNodePtr>::empty(),
{
    Arena::new()
}

/// `Arena::insert`: stores `graph` in a free slot and returns the slot and
/// the arena's generation as a handle. The handle was not live before, and
/// nothing else in the arena changes. The arena grows as a `Vec` does, and
/// like `Vec::push` the call fails only for want of memory.
#[verifier::external_body]
pub(crate) fn graph_arena_insert(arena: &mut Arena<Graph>, graph: Graph) -> (at: GraphPtr)
    ensures
        !graph_arena_map(*old(arena)).contains_key(at),
        graph_arena_map(*final(arena)) == graph_arena_map(*old(arena)).insert(at, graph@),
{
    let (slot, generation) = arena.insert(graph).into_raw_parts();
    GraphPtr { slot, generation }
}

/// `Arena::insert`: stores `node` in a free slot and returns the slot and
/// the arena's generation as a handle. The handle was not live before, and
/// nothing else in the arena changes. The arena grows as a `Vec` does, and
/// like `Vec::push` the call fails only for want of memory.
#[verifier::external_body]
pub(crate) fn node_arena_insert(arena: &mut Arena<ANFNode>, node: ANFNode) -> (at: ANFNodePtr)
    ensures
        !node_arena_map(*old(arena)).contains_key(at),
        node_arena_map(*final(arena)) == node_arena_map(*old(arena)).insert(at, node@),
{
    let (slot, generation) = arena.insert(node).into_raw_parts();
    ANFNodePtr { slot, generation }
}

/// `Arena::get`: the graph at `at` if that handle is live, `None` for any
/// other slot and generation. It never panics.
#[verifier::external_body]
pub(crate) fn graph_arena_get(arena: &Arena<Graph>, at: GraphPtr) -> (found: Option<&Graph>)
    ensures
        found is Some <==> graph_arena_map(*arena).contains_key(at),
        found is Some ==> found->0@ == graph_arena_map(*arena)[at],
{
    arena.get(Index::from_raw_parts(at.slot, at.generation))
}

/// `Arena::get`: the node at `at` if that handle is live, `None` for any
/// other slot and generation. It never panics.
#[verifier::external_body]
pub(crate) fn node_arena_get(arena: &Arena<ANFNode>, at: ANFNodePtr) -> (found: Option<&ANFNode>)
    ensures
        found is Some <==> node_arena_map(*arena).contains_key(at),
        found is Some ==> found->0@ == node_arena_map(*arena)[at],
{
    arena.get(Index::from_raw_parts(at.slot, at.generation))
}

/// `Arena::get_mut`: exclusive access to the graph at `at` if that handle
/// is live. When the borrow ends the arena holds at `at` whatever the graph
/// then is, and everything else as before. For a handle that is not live it
/// returns `None` and the arena is unchanged.
#[verifier::external_body]
pub(crate) fn graph_arena_get_mut(arena: &mut Arena<Graph>, at: GraphPtr) -> (found: Option<
    &mut Graph,
>)
    ensures
        found is Some <==> graph_arena_map(*old(arena)).contains_key(at),
        found is Some ==> (*found->0)@ == graph_arena_map(*old(arena))[at],
        found is Some ==> graph_arena_map(*final(arena)) == graph_arena_map(*old(arena)).insert(
            at,
            (*final(found->0))@,
        ),
        found is None ==> graph_arena_map(*final(arena)) == graph_arena_map(*old(arena)),
{
    arena.get_mut(Index::from_raw_parts(at.slot, at.generation))
}

} // verus!
