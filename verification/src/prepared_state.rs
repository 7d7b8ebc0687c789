//! The prepared "+" state: the equal-superposition single-qubit column
//! vector [1/sqrt(2), 1/sqrt(2)], held exactly as scaled integers.

use vstd::prelude::*;

verus! {

/// One state-vector entry, held exactly: the value it stands for is
/// `num * (1/sqrt(2))^inv_sqrt2_pow`.
#[derive(Clone, Copy, Debug, PartialEq, Eq, Structural)]
pub struct Amplitude {
    pub num: i16,
    pub inv_sqrt2_pow: u16,
}

/// The amplitude 1/sqrt(2), each component of the "+" state.
pub open spec fn plus_amplitude() -> Amplitude {
    Amplitude { num: 1, inv_sqrt2_pow: 1 }
}

/// The prepared "+" state, the 2x1 column vector [1/sqrt(2), 1/sqrt(2)].
#[derive(Clone, Copy, Debug, PartialEq)]
pub struct PreparedState {
    pub state: [Amplitude; 2],
}

impl PreparedState {
    pub fn new() -> (r: Self)
        ensures
            r.state[0] == plus_amplitude(),
            r.state[1] == plus_amplitude(),
    {
        let half = Amplitude { num: 1, inv_sqrt2_pow: 1 };
        PreparedState { state: [half, half] }
    }
}

/// Construction of the prepared state is idempotent: any two independently
/// constructed instances hold the same vector, entry for entry, namely
/// [1/sqrt(2), 1/sqrt(2)].
pub proof fn lemma_prepared_state_idempotent(a: PreparedState, b: PreparedState)
    requires
        a.state[0] == plus_amplitude(),
        a.state[1] == plus_amplitude(),
        b.state[0] == plus_amplitude(),
        b.state[1] == plus_amplitude(),
    ensures
        a.state@ == b.state@,
{
    assert(a.state@ =~= b.state@);
}

} // verus!
