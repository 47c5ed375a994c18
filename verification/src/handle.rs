//! Handles and constant payloads.

use vstd::prelude::*;

verus! {

/// Names a graph of one manager: the arena slot it lives in and the
/// generation in which that slot was filled.
#[derive(Clone, Copy, Debug, PartialEq, Eq, Structural, Hash)]
pub struct GraphPtr {
    pub(crate) slot: usize,
    pub(crate) generation: u64,
}

/// Names a node of one manager: the arena slot it lives in and the
/// generation in which that slot was filled.
#[derive(Clone, Copy, Debug, PartialEq, Eq, Structural, Hash)]
pub struct ANFNodePtr {
    pub(crate) slot: usize,
    pub(crate) generation: u64,
}

/// What a constant node carries.
#[derive(Clone, Copy, Debug, PartialEq, Eq, Structural)]
pub enum Value {
    /// A graph used as a value: a closure.
    Graph(GraphPtr),
}

/// Which case of [`Value`] a payload is, without its content.
#[derive(Clone, Copy, Debug, PartialEq, Eq, Structural)]
pub enum ValueKind {
    Graph,
}

impl Value {
    /// The case this payload belongs to.
    pub open spec fn spec_kind(&self) -> ValueKind {
        match *self {
            Value::Graph(_) => ValueKind::Graph,
        }
    }

    /// The case this payload belongs to.
    #[verifier::when_used_as_spec(spec_kind)]
    pub fn kind(&self) -> (k: ValueKind)
        ensures
            k == self.spec_kind(),
    {
        match self {
            Value::Graph(_) => ValueKind::Graph,
        }
    }
}

impl ANFNodePtr {
    /// The handle as one number, slot above generation. The root set is
    /// keyed by it.
    pub(crate) open spec fn spec_key(self) -> u128 {
        (self.slot * 0x1_0000_0000_0000_0000 + self.generation) as u128
    }

    /// The handle as one number, slot above generation.
    pub(crate) fn key(&self) -> (k: u128)
        ensures
            k == self.spec_key(),
    {
        let high: u128 = self.slot as u128;
        let low: u128 = self.generation as u128;
        high * 0x1_0000_0000_0000_0000u128 + low
    }

    /// Two handles with the same key are the same handle.
    pub(crate) proof fn lemma_key_injective(a: ANFNodePtr, b: ANFNodePtr)
        ensures
            a.spec_key() == b.spec_key() <==> a == b,
    {
    }
}

} // verus!
