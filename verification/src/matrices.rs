//! The constraint matrices of a circuit.

use vstd::prelude::*;

verus! {

/// The R1CS constraint matrices of a circuit over the field `F`, with the
/// sizes of its instance, constraints and witness.
#[derive(Clone, Debug)]
pub struct Matrices<F> {
    pub matrices: Vec<Vec<Vec<(F, usize)>>>,
    pub num_inputs: usize,
    pub num_constraints: usize,
    pub num_witness_variables: usize,
}

impl<F> Matrices<F> {
    pub fn new(
        matrices: Vec<Vec<Vec<(F, usize)>>>,
        num_inputs: usize,
        num_constraints: usize,
        num_witness_variables: usize,
    ) -> (r: Self)
        ensures
            r.matrices@ == matrices@,
            r.num_inputs == num_inputs,
            r.num_constraints == num_constraints,
            r.num_witness_variables == num_witness_variables,
    {
        Matrices { matrices, num_inputs, num_constraints, num_witness_variables }
    }
}

} // verus!
