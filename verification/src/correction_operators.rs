//! The two single-qubit Pauli correction operators, held as fixed 2x2
//! integer matrices of the `ndarray` crate.

use vstd::prelude::*;

verus! {

/// A two-dimensional `ndarray` array of `i16` entries. The array itself is
/// opaque here; `mat2_entries` names what it holds, row by row.
#[verifier::external_body]
#[derive(Debug, PartialEq)]
pub struct Mat2 {
    inner: ndarray::Array2<i16>,
}

/// The entries of a [`Mat2`], row by row.
pub uninterp spec fn mat2_entries(m: Mat2) -> Seq<Seq<int>>;

impl Mat2 {
    /// Relies on ndarray::arr2: the returned array holds exactly the given
    /// rows, element for element.
    #[verifier::external_body]
    fn from_rows(m00: i16, m01: i16, m10: i16, m11: i16) -> (r: Mat2)
        ensures
            mat2_entries(r) == seq![
                seq![m00 as int, m01 as int],
                seq![m10 as int, m11 as int],
            ],
    {
        Mat2 { inner: ndarray::arr2(&[[m00, m01], [m10, m11]]) }
    }

    /// Relies on ndarray's indexing (`Index<[usize; 2]>`): returns the
    /// element at the given row and column.
    #[verifier::external_body]
    pub(crate) fn entry(&self, row: usize, col: usize) -> (r: i16)
        requires
            row < mat2_entries(*self).len(),
            col < mat2_entries(*self)[row as int].len(),
        ensures
            r as int == mat2_entries(*self)[row as int][col as int],
    {
        self.inner[[row, col]]
    }
}

/// The entries of the Pauli-X (bit-flip) operator.
pub open spec fn pauli_x_entries() -> Seq<Seq<int>> {
    seq![seq![0int, 1int], seq![1int, 0int]]
}

/// The entries of the Pauli-Z (phase-flip) operator.
pub open spec fn pauli_z_entries() -> Seq<Seq<int>> {
    seq![seq![1int, 0int], seq![0int, -1int]]
}

/// The Pauli-X correction operator, the 2x2 matrix [[0,1],[1,0]].
#[derive(Debug, PartialEq)]
pub struct CorrectionOperatorX {
    pub matrix: Mat2,
}

impl CorrectionOperatorX {
    pub fn new() -> (r: Self)
        ensures
            mat2_entries(r.matrix) == pauli_x_entries(),
    {
        CorrectionOperatorX { matrix: Mat2::from_rows(0, 1, 1, 0) }
    }

    /// The matrix entry at the given row and column.
    pub fn matrix_entry(&self, row: usize, col: usize) -> (r: i16)
        requires
            mat2_entries(self.matrix) == pauli_x_entries(),
            row < 2,
            col < 2,
        ensures
            r as int == pauli_x_entries()[row as int][col as int],
    {
        self.matrix.entry(row, col)
    }
}

/// The Pauli-Z correction operator, the 2x2 matrix [[1,0],[0,-1]].
pub struct CorrectionOperatorZ {
    pub matrix: Mat2,
}

impl CorrectionOperatorZ {
    pub fn new() -> (r: Self)
        ensures
            mat2_entries(r.matrix) == pauli_z_entries(),
    {
        CorrectionOperatorZ { matrix: Mat2::from_rows(1, 0, 0, -1) }
    }

    /// The matrix entry at the given row and column.
    pub fn matrix_entry(&self, row: usize, col: usize) -> (r: i16)
        requires
            mat2_entries(self.matrix) == pauli_z_entries(),
            row < 2,
            col < 2,
        ensures
            r as int == pauli_z_entries()[row as int][col as int],
    {
        self.matrix.entry(row, col)
    }
}

/// Construction of the correction-X operator is idempotent: any two
/// independently constructed instances hold the same entries, namely the
/// Pauli-X matrix itself.
pub proof fn lemma_correction_x_idempotent(a: CorrectionOperatorX, b: CorrectionOperatorX)
    requires
        mat2_entries(a.matrix) == pauli_x_entries(),
        mat2_entries(b.matrix) == pauli_x_entries(),
    ensures
        mat2_entries(a.matrix) == mat2_entries(b.matrix),
{
}

/// Construction of the correction-Z operator is idempotent: any two
/// independently constructed instances hold the same entries, namely the
/// Pauli-Z matrix itself.
pub proof fn lemma_correction_z_idempotent(a: CorrectionOperatorZ, b: CorrectionOperatorZ)
    requires
        mat2_entries(a.matrix) == pauli_z_entries(),
        mat2_entries(b.matrix) == pauli_z_entries(),
    ensures
        mat2_entries(a.matrix) == mat2_entries(b.matrix),
{
}

} // verus!
