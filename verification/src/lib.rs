//! An A-normal-form graph representation.
//!
//! A program is a set of graphs (function scopes) and nodes, all owned by
//! one [`GraphManager`]. A graph has ordered parameters, a return node and
//! flags. A node is an application over ordered operands, a parameter or a
//! constant. Graphs and nodes are named by handles, [`GraphPtr`] and
//! [`ANFNodePtr`]: small `Copy` values that stay valid for as long as the
//! manager lives, so that nodes can share operands and graphs can refer to
//! each other and to themselves.
//!
//! Every operation takes the manager it works on. A handle is to be used
//! with the manager that issued it: the operations on handles require it,
//! and [`GraphManager::get_graph`] and [`GraphManager::get_node`] tell
//! whether a handle names anything in a given manager.
//!
//! Contracts are stated over [`ManagerView`], the mathematical model of a
//! manager. The module [`laws`] proves what holds of that model over any
//! course of operations.

pub mod arena;
pub mod graph;
pub mod handle;
pub mod laws;
pub mod manager;
pub mod node;
pub mod view;

pub use graph::{Graph, GraphView};
pub use handle::{ANFNodePtr, GraphPtr, Value, ValueKind};
pub use manager::{GraphManager, HandleError};
pub use node::{ANFNode, ANFNodeInputIter, NodeView};
pub use view::ManagerView;
