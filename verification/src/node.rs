//! Nodes: what a manager stores for one computation step, formal input or
//! constant.

use crate::handle::{ANFNodePtr, GraphPtr, Value, ValueKind};
use crate::manager::GraphManager;
use vstd::prelude::*;

verus! {

/// The three kinds of node, with what each holds.
pub(crate) enum ANFNodeType {
    /// A computation step of a graph. Operand 0 is by convention the
    /// operator, the rest its arguments.
    Apply(GraphPtr, Vec<ANFNodePtr>),
    /// A formal input of a graph.
    Parameter(GraphPtr),
    /// A literal or a closure. It belongs to no graph.
    Constant(Value),
}

/// One node as the manager stores it.
pub struct ANFNode {
    pub(crate) node: ANFNodeType,
}

/// What a node is. Its kind and content are fixed when it is allocated.
#[verifier::ext_equal]
pub enum NodeView {
    Apply { owner: GraphPtr, operands: Seq<ANFNodePtr> },
    Parameter { owner: GraphPtr },
    Constant { value: Value },
}

impl NodeView {
    /// The operands of an apply node in declaration order; no operands for
    /// the other kinds.
    pub open spec fn operands(self) -> Seq<ANFNodePtr> {
        match self {
            NodeView::Apply { operands, .. } => operands,
            _ => Seq::empty(),
        }
    }

    /// The payload of a constant node; `None` for the other kinds.
    pub open spec fn value(self) -> Option<Value> {
        match self {
            NodeView::Constant { value } => Some(value),
            _ => None,
        }
    }
}

impl ANFNode {
    pub open(crate) spec fn view(&self) -> NodeView {
        match self.node {
            ANFNodeType::Apply(owner, operands) => NodeView::Apply { owner, operands: operands@ },
            ANFNodeType::Parameter(owner) => NodeView::Parameter { owner },
            ANFNodeType::Constant(value) => NodeView::Constant { value },
        }
    }
}

/// The operands of a node, handed out one at a time in declaration order.
/// It holds a copy of the operand list, taken when it was made, and no
/// borrow of the manager.
pub struct ANFNodeInputIter {
    vals: Vec<ANFNodePtr>,
    p: usize,
}

impl ANFNodeInputIter {
    /// The operands still to come, the next one first.
    pub closed spec fn view(&self) -> Seq<ANFNodePtr> {
        if self.p <= self.vals.len() {
            self.vals@.skip(self.p as int)
        } else {
            Seq::empty()
        }
    }

    /// The operands of `node` from the first on: those of an apply node,
    /// none for the other kinds.
    pub fn new(node: &ANFNode) -> (inputs: Self)
        ensures
            inputs@ == node@.operands(),
    {
        ANFNodeInputIter {
            vals: match &node.node {
                ANFNodeType::Apply(_, inps) => inps.clone(),
                _ => Vec::new(),
            },
            p: 0,
        }
    }

    /// Hands out the next operand, or `None` once all were handed out.
    pub fn next(&mut self) -> (item: Option<ANFNodePtr>)
        ensures
            old(self)@.len() > 0 ==> item == Some(old(self)@[0]),
            old(self)@.len() > 0 ==> final(self)@ == old(self)@.skip(1),
            old(self)@.len() == 0 ==> item is None,
            old(self)@.len() == 0 ==> final(self)@ == old(self)@,
    {
        if self.p < self.vals.len() {
            let elem = self.vals[self.p];
            self.p += 1;
            Some(elem)
        } else {
            None
        }
    }
}

/// What can be asked of a node. Every question requires that the handle
/// names a node of `manager`; [`GraphManager::get_node`] tells whether it
/// does.
impl ANFNodePtr {
    /// The operands of this node in declaration order: those it was
    /// allocated with if it is an apply node, none otherwise. Each call
    /// starts again from the first operand.
    pub fn incoming(&self, manager: &GraphManager) -> (inputs: ANFNodeInputIter)
        requires
            manager@.has_node(*self),
        ensures
            inputs@ == manager@.nodes[*self].operands(),
    {
        ANFNodeInputIter::new(manager.get_node(*self).unwrap())
    }

    /// The payload of this node if it is a constant, `None` otherwise.
    pub fn value(&self, manager: &GraphManager) -> (payload: Option<Value>)
        requires
            manager@.has_node(*self),
        ensures
            payload == manager@.nodes[*self].value(),
    {
        match &manager.get_node(*self).unwrap().node {
            ANFNodeType::Constant(v) => Some(*v),
            _ => None,
        }
    }

    /// Whether this node is an apply node.
    pub fn is_apply(&self, manager: &GraphManager) -> (yes: bool)
        requires
            manager@.has_node(*self),
        ensures
            yes == manager@.nodes[*self] is Apply,
    {
        match &manager.get_node(*self).unwrap().node {
            ANFNodeType::Apply(_, _) => true,
            _ => false,
        }
    }

    /// Whether this node is an apply node whose operand 0 is a constant of
    /// this manager that carries `operator`.
    pub fn is_apply_of(&self, manager: &GraphManager, operator: Value) -> (yes: bool)
        requires
            manager@.has_node(*self),
        ensures
            yes == manager@.is_apply_of(*self, operator),
    {
        match &manager.get_node(*self).unwrap().node {
            ANFNodeType::Apply(_, inps) => {
                if inps.len() == 0 {
                    return false;
                }
                match manager.get_node(inps[0]) {
                    Ok(first) => match &first.node {
                        ANFNodeType::Constant(v) => *v == operator,
                        _ => false,
                    },
                    Err(_) => false,
                }
            },
            _ => false,
        }
    }

    /// Whether this node is a parameter node.
    pub fn is_parameter(&self, manager: &GraphManager) -> (yes: bool)
        requires
            manager@.has_node(*self),
        ensures
            yes == manager@.nodes[*self] is Parameter,
    {
        match &manager.get_node(*self).unwrap().node {
            ANFNodeType::Parameter(_) => true,
            _ => false,
        }
    }

    /// Whether this node is a constant node.
    pub fn is_constant(&self, manager: &GraphManager) -> (yes: bool)
        requires
            manager@.has_node(*self),
        ensures
            yes == manager@.nodes[*self] is Constant,
    {
        match &manager.get_node(*self).unwrap().node {
            ANFNodeType::Constant(_) => true,
            _ => false,
        }
    }

    /// Whether this node is a constant node whose payload is of `kind`.
    pub fn is_constant_of(&self, manager: &GraphManager, kind: ValueKind) -> (yes: bool)
        requires
            manager@.has_node(*self),
        ensures
            yes == (manager@.nodes[*self].value() matches Some(v) && v.kind() == kind),
    {
        match &manager.get_node(*self).unwrap().node {
            ANFNodeType::Constant(v) => v.kind() == kind,
            _ => false,
        }
    }

    /// Whether this node is a constant node whose payload is a graph.
    pub fn is_constant_graph(&self, manager: &GraphManager) -> (yes: bool)
        requires
            manager@.has_node(*self),
        ensures
            yes == (manager@.nodes[*self].value() matches Some(v) && v is Graph),
    {
        match &manager.get_node(*self).unwrap().node {
            ANFNodeType::Constant(Value::Graph(_)) => true,
            _ => false,
        }
    }
}

} // verus!
