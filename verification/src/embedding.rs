use vstd::prelude::*;

verus! {

/// Width of an embedding and of the store's fixed-size vector column.
pub const VECTOR_DIM: usize = 512;

/// An ordered sequence of 32-bit floats, carried by bit pattern: position
/// `i` holds the IEEE 754 bits of float `i`. Carrying bits keeps every
/// comparison on the persistence path bit-exact.
///
/// A vector of the store's fixed column width satisfies `wf`; one of any
/// other length can still be built, and the store is the place that must
/// reject it.
#[derive(Clone)]
pub struct EmbeddingVector {
    pub bits: Vec<u32>,
}

impl EmbeddingVector {
    /// The length matches the store's fixed-size vector column.
    pub open spec fn wf(&self) -> bool {
        self.bits@.len() == VECTOR_DIM
    }

    pub fn new(bits: Vec<u32>) -> (v: EmbeddingVector)
        ensures
            v.bits@ == bits@,
    {
        EmbeddingVector { bits }
    }

    pub fn len(&self) -> (n: usize)
        ensures
            n == self.bits@.len(),
    {
        self.bits.len()
    }
}

/// Why one forward pass produced no embedding. The per-cycle policy for
/// every such failure is to log it and skip persistence for the cycle.
pub enum InferenceError {
    /// The inference session reported a failure executing the pass.
    ExecutionFailed(String),
}

impl InferenceError {
    /// A diagnostic line for process-local logging.
    pub fn message(&self) -> (m: &String)
        ensures
            self matches InferenceError::ExecutionFailed(s) && m@ == s@,
    {
        match self {
            InferenceError::ExecutionFailed(s) => s,
        }
    }
}

} // verus!
