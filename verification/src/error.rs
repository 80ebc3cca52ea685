//! The ways in which an operator can fail.

use vstd::prelude::*;

verus! {

/// Why an operator gave up on its stream.
#[derive(Clone, Copy, Debug, PartialEq, Eq, Structural)]
pub enum OperatorError {
    /// The operator was set up with a column index that names no column of
    /// the batches it is fed.
    ColumnOutOfRange,
    /// Batches that have to fit together under one schema do not: they
    /// differ in their columns, or together they hold more than one batch
    /// can.
    SchemaMismatch,
    /// Values of two different kinds met in one accumulator.
    KindMismatch,
}

impl OperatorError {
    /// Whether the error lies in how the operator was set up rather than in
    /// the data it was fed.
    pub fn is_configuration(&self) -> (r: bool)
        ensures
            r == (*self == OperatorError::ColumnOutOfRange),
    {
        match self {
            OperatorError::ColumnOutOfRange => true,
            _ => false,
        }
    }

    /// A sentence that says what went wrong.
    pub fn message(&self) -> (text: &'static str)
        ensures
            text@ == match *self {
                OperatorError::ColumnOutOfRange => "column index out of range"@,
                OperatorError::SchemaMismatch => "batches do not fit together under one schema"@,
                OperatorError::KindMismatch => "values of different kinds cannot be combined"@,
            },
    {
        match self {
            OperatorError::ColumnOutOfRange => "column index out of range",
            OperatorError::SchemaMismatch => "batches do not fit together under one schema",
            OperatorError::KindMismatch => "values of different kinds cannot be combined",
        }
    }
}

} // verus!
