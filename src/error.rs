use vstd::prelude::*;

verus! {

/// The failures that the annotated-matrix container reports.
///
/// Every operation that detects one of these leaves the value it was called
/// on as it was (the in-place subset of a whole `IMAnnData` excepted, see
/// there).
#[derive(Debug, Clone, PartialEq, Eq)]
pub enum AnnError {
    /// A key that is being added is already present.
    KeyAlreadyExists,
    /// A key that is looked up, removed or updated is absent.
    KeyNotFound,
    /// An array's shape is not the one that its place requires.
    ShapeMismatch { expected: Vec<usize>, actual: Vec<usize> },
    /// A table's height and its label index's length differ.
    HeightMismatch { table: usize, index: usize },
    /// A position of an explicit selector is not below the bound.
    IndexOutOfBounds { index: usize, bound: usize },
    /// A slice selector reaches past the bound.
    SliceOutOfBounds { start: usize, end: usize, bound: usize },
    /// A slice selector has step zero.
    InvalidStep { step: usize },
    /// The number of per-axis selectors is not the number of axes.
    SelectionArityMismatch { expected_axes: usize, given_axes: usize },
    /// A slot was read or written while empty.
    UninitializedAccess,
    /// A named column is not part of a table.
    ColumnNotFound,
    /// The table library refused an operation.
    TableOperation,
    /// The array library refused a selection.
    ArrayOperation,
}

} // verus!
