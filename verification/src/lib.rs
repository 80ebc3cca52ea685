//! Streaming operators over batches of rows: a row window, a concatenator,
//! a row counter, a column projector and column aggregators, each a small
//! state machine that is fed one batch at a time.
//!
//! An operator never sees the whole stream. It keeps what it has to know
//! between two batches, and its contract says what each batch does to that
//! state and what comes out. What holds of a whole stream (that a window
//! cuts the rows of the stream as if they were one batch, that a sum is the
//! total of all values) is proved once, for every stream, from those
//! contracts.
//!
//! The batches are Arrow record batches. The calls into Arrow are gathered
//! in [`batch`], with the model of batches and columns that every contract
//! is stated over. Waiting for a batch and sending one on is left to the
//! caller.

pub mod aggregate;
pub mod batch;
pub mod concat;
pub mod count;
pub mod error;
pub mod naming;
pub mod project;
pub mod scalar;
pub mod window;

pub use aggregate::min_array;
pub use aggregate::sum_array;
pub use aggregate::ColumnMin;
pub use aggregate::ColumnSum;
pub use batch::Column;
pub use batch::ColumnKind;
pub use batch::RowBatch;
pub use concat::BatchConcatenator;
pub use count::RowCounter;
pub use error::OperatorError;
pub use naming::snake_to_pascal;
pub use project::ColumnProjector;
pub use scalar::ScalarValue;
pub use window::RowRange;
pub use window::RowWindow;
pub use window::WindowCase;
