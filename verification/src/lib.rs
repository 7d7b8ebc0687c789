//! Building blocks for a measurement-based quantum computing language:
//! the two Pauli correction operators, the prepared "+" state, and the
//! command tokens of the future instruction set.

mod correction_operators;
mod prepared_state;

pub use correction_operators::CorrectionOperatorX;
pub use correction_operators::CorrectionOperatorZ;
pub use correction_operators::Mat2;
pub use correction_operators::lemma_correction_x_idempotent;
pub use correction_operators::lemma_correction_z_idempotent;
pub use correction_operators::mat2_entries;
pub use correction_operators::pauli_x_entries;
pub use correction_operators::pauli_z_entries;
pub use prepared_state::Amplitude;
pub use prepared_state::PreparedState;
pub use prepared_state::lemma_prepared_state_idempotent;
pub use prepared_state::plus_amplitude;

use vstd::prelude::*;

verus! {

/// Command tokens of the prospective language: node creation, entanglement,
/// measurement, and the two Pauli corrections.
#[derive(Debug, PartialEq)]
pub enum Cmd {
    N,
    E,
    M,
    X,
    Z,
}

} // verus!
