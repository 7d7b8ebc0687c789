use std::f64::consts::FRAC_1_SQRT_2;

use mclang::Amplitude;
use mclang::Cmd;
use mclang::CorrectionOperatorX;
use mclang::CorrectionOperatorZ;
use mclang::PreparedState;

/// The floating-point value an [`Amplitude`] stands for.
fn amplitude_value(a: &Amplitude) -> f64 {
    (a.num as f64) * FRAC_1_SQRT_2.powi(a.inv_sqrt2_pow as i32)
}

#[test]
fn parse_prepare_state() {
    let plus_state = ndarray::arr2(&[[FRAC_1_SQRT_2], [FRAC_1_SQRT_2]]);

    let prepared_state = PreparedState::new();
    let as_floats = ndarray::arr2(&[
        [amplitude_value(&prepared_state.state[0])],
        [amplitude_value(&prepared_state.state[1])],
    ]);
    assert_eq!(as_floats, plus_state);
}

#[test]
fn parse_correction_x() {
    let pauli_x = ndarray::arr2(&[[0i16, 1], [1, 0]]);

    let correction_operator = CorrectionOperatorX::new();
    for row in 0..2usize {
        for col in 0..2usize {
            assert_eq!(correction_operator.matrix_entry(row, col), pauli_x[[row, col]]);
        }
    }
}

#[test]
fn parse_correction_z() {
    let pauli_z = ndarray::arr2(&[[1i16, 0], [0, -1]]);

    let correction_operator = CorrectionOperatorZ::new();
    for row in 0..2usize {
        for col in 0..2usize {
            assert_eq!(correction_operator.matrix_entry(row, col), pauli_z[[row, col]]);
        }
    }
}

#[test]
fn correction_x_construction_idempotent() {
    let first = CorrectionOperatorX::new();
    let second = CorrectionOperatorX::new();
    assert_eq!(first, second);
    assert_eq!(first.matrix, second.matrix);
}

#[test]
fn correction_z_construction_idempotent() {
    let first = CorrectionOperatorZ::new();
    let second = CorrectionOperatorZ::new();
    assert_eq!(first.matrix, second.matrix);
}

#[test]
fn prepared_state_construction_idempotent() {
    let first = PreparedState::new();
    let second = PreparedState::new();
    assert_eq!(first, second);
    let literal = Amplitude { num: 1, inv_sqrt2_pow: 1 };
    assert_eq!(first.state, [literal, literal]);
}

#[test]
fn command_tokens_are_distinct() {
    let tokens = [Cmd::N, Cmd::E, Cmd::M, Cmd::X, Cmd::Z];
    for left in 0..tokens.len() {
        for right in 0..tokens.len() {
            assert_eq!(left == right, tokens[left] == tokens[right]);
        }
    }
}
